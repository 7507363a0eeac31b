use vstd::prelude::*;

use crate::player_object::PlayerObject;
use crate::replay::{Location, ReplayType};

verus! {

/// Whether bit `i` of `x` is set.
pub open spec fn bit_set(x: u8, i: u8) -> bool {
    (x >> i) & 1u8 == 1u8
}

/// One player's buttons in one frame: how many there are (up to 8) and, as
/// bit `i`, whether button `i` is down.
#[derive(Clone, Copy, Debug, PartialEq, Eq, Structural)]
pub struct PlayerData {
    pub number_of_clicks: u8,
    pub clicks: u8,
}

proof fn lemma_set_bit(r: u8, i: u8, j: u8)
    requires
        i < 8,
        j < 8,
    ensures
        bit_set(r | (1u8 << i), j) == (bit_set(r, j) || i == j),
{
    assert(bit_set(r | (1u8 << i), j) == (bit_set(r, j) || i == j)) by (bit_vector)
        requires
            i < 8,
            j < 8,
    ;
}

proof fn lemma_zero_bits(j: u8)
    requires
        j < 8,
    ensures
        !bit_set(0u8, j),
{
    assert(!bit_set(0u8, j)) by (bit_vector)
        requires
            j < 8,
    ;
}

impl PlayerData {
    /// The button state of `player` for the given buttons (at most 8).
    pub fn create(player: PlayerObject, clicks: Vec<bool>) -> (r: Self)
        requires
            clicks@.len() <= 8,
        ensures
            r.number_of_clicks == clicks@.len(),
            forall|i: u8| i < 8 ==> #[trigger] bit_set(r.clicks, i) == (i < clicks@.len() && clicks@[i as int]),
    {
        let n = clicks.len() as u8;
        PlayerData { number_of_clicks: n, clicks: Self::create_clicks(clicks) }
    }

    /// The bit mask with bit `i` set exactly for the buttons `i` that are down.
    fn create_clicks(clicks: Vec<bool>) -> (r: u8)
        requires
            clicks@.len() <= 8,
        ensures
            forall|i: u8| i < 8 ==> #[trigger] bit_set(r, i) == (i < clicks@.len() && clicks@[i as int]),
    {
        let mut result: u8 = 0;
        let n = clicks.len();
        let mut i: usize = 0;
        proof {
            assert forall|j: u8| j < 8 implies !#[trigger] bit_set(result, j) by {
                lemma_zero_bits(j);
            }
        }
        while i < n
            invariant
                n == clicks@.len(),
                n <= 8,
                i <= n,
                forall|j: u8| j < 8 ==> #[trigger] bit_set(result, j) == (j < i && clicks@[j as int]),
            decreases n - i,
        {
            let ib = i as u8;
            let old_result = result;
            if clicks[i] {
                result = result | (1u8 << ib);
            }
            proof {
                assert forall|j: u8| j < 8 implies #[trigger] bit_set(result, j) == (j < i + 1
                    && clicks@[j as int]) by {
                    if clicks@[i as int] {
                        lemma_set_bit(old_result, ib, j);
                    }
                }
            }
            i = i + 1;
        }
        result
    }
}

/// One frame of a full recording: where it is, both players' buttons, and
/// the frame rate and play time (as `f32` and `f64` bit patterns).
#[derive(Clone, Copy, Debug, PartialEq, Eq, Structural)]
pub struct FrameData {
    pub location: Location,
    pub player1: PlayerData,
    pub player2: PlayerData,
    pub fps: u32,
    pub time: u64,
}

/// A recording of the full button state of every frame, with frame rates as
/// `f32` bit patterns.
pub struct FullReplay {
    pub initial_fps: u32,
    pub current_fps: u32,
    pub replay_type: ReplayType,
    pub current_frame: u32,
    pub current_clicks: (Vec<bool>, Vec<bool>),
    pub frames: Vec<FrameData>,
}

/// Frees spare capacity of the frame list.
#[verifier::external_body]
fn shrink_frames(v: &mut Vec<FrameData>)
    ensures
        final(v)@ == old(v)@,
{
    v.shrink_to_fit();
}

impl FullReplay {
    /// An empty full recording of the given type, starting at frame rate `fps`.
    pub fn new(fps: u32, replay_type: ReplayType) -> (r: Self)
        ensures
            r.initial_fps == fps,
            r.current_fps == fps,
            r.replay_type == replay_type,
            r.current_frame == 0,
            r.current_clicks.0@ == Seq::<bool>::empty(),
            r.current_clicks.1@ == Seq::<bool>::empty(),
            r.frames@ == Seq::<FrameData>::empty(),
    {
        FullReplay {
            initial_fps: fps,
            current_fps: fps,
            replay_type,
            current_frame: 0,
            current_clicks: (Vec::new(), Vec::new()),
            frames: Vec::new(),
        }
    }

    /// Releases spare memory of the frame list; the frames stay as they are.
    pub fn finalise(&mut self)
        ensures
            final(self).frames@ == old(self).frames@,
            final(self).initial_fps == old(self).initial_fps,
            final(self).current_fps == old(self).current_fps,
            final(self).replay_type == old(self).replay_type,
            final(self).current_frame == old(self).current_frame,
            final(self).current_clicks.0@ == old(self).current_clicks.0@,
            final(self).current_clicks.1@ == old(self).current_clicks.1@,
    {
        shrink_frames(&mut self.frames);
    }

    /// The recording's type.
    pub fn get_type(&self) -> (r: ReplayType)
        ensures
            r == self.replay_type,
    {
        self.replay_type
    }

    /// The frame rate in force at the playback position.
    pub fn get_current_fps(&self) -> (r: u32)
        ensures
            r == self.current_fps,
    {
        self.current_fps
    }
}

} // verus!
