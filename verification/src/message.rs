use vstd::prelude::*;

use crate::hack_handler::{hack_code, hack_of_code, HackName};
use crate::omegabot::{no_clip_code, no_clip_of_code, NoClip};
use crate::replay::ReplayType;

verus! {

/// A message between the bot and its controller. Frame rates, speeds and
/// times are the bit patterns of their `f32` values; text is UTF-16.
#[derive(Clone, Debug, PartialEq, Eq)]
pub enum Message {
    Ping,
    Error(Vec<u16>),
    Received,
    Exit,
    ChangeFPS(u32),
    Speedhack(u32),
    RespawnTime(u32),
    FrameAdvance(bool),
    AccuracyFix(bool),
    PracticeFix(bool),
    SetNoClip(NoClip),
    StartPlayback,
    StopPlayback,
    StartRecording,
    StopRecording,
    Append,
    SaveReplay(Vec<u16>),
    LoadReplay(Vec<u16>),
    ApplyHack(HackName),
    RestoreHack(HackName),
    SetReplayType(ReplayType),
}

/// The number of a message on the wire: 1 to 21, in declaration order.
pub open spec fn message_code(m: Message) -> u16 {
    match m {
        Message::Ping => 1,
        Message::Error(_) => 2,
        Message::Received => 3,
        Message::Exit => 4,
        Message::ChangeFPS(_) => 5,
        Message::Speedhack(_) => 6,
        Message::RespawnTime(_) => 7,
        Message::FrameAdvance(_) => 8,
        Message::AccuracyFix(_) => 9,
        Message::PracticeFix(_) => 10,
        Message::SetNoClip(_) => 11,
        Message::StartPlayback => 12,
        Message::StopPlayback => 13,
        Message::StartRecording => 14,
        Message::StopRecording => 15,
        Message::Append => 16,
        Message::SaveReplay(_) => 17,
        Message::LoadReplay(_) => 18,
        Message::ApplyHack(_) => 19,
        Message::RestoreHack(_) => 20,
        Message::SetReplayType(_) => 21,
    }
}

/// A message without payload goes as its number, its number again and 0.
pub open spec fn unit_words(code: u16) -> Seq<u16> {
    seq![code, code, 0u16]
}

/// An `f32` bit pattern as two words, low half first.
pub open spec fn bits_words(bits: u32) -> Seq<u16> {
    seq![(bits & 0xFFFFu32) as u16, (bits >> 16u32) as u16]
}

/// The bit pattern that two words stand for, low half first.
pub open spec fn words_bits(lo: u16, hi: u16) -> u32 {
    (lo as u32) | ((hi as u32) << 16u32)
}

/// A flag as a word: 1 for set, 0 for clear.
pub open spec fn flag_word(b: bool) -> u16 {
    if b {
        1
    } else {
        0
    }
}

/// A replay type as a word: 1 for x position, 2 for frame.
pub open spec fn replay_type_word(t: ReplayType) -> u16 {
    match t {
        ReplayType::XPos => 1,
        ReplayType::Frame => 2,
    }
}

/// The words that carry `m`: its number, then its payload (a message without
/// payload as [`unit_words`]).
pub open spec fn encoding(m: Message) -> Seq<u16> {
    match m {
        Message::Error(t) => seq![2u16] + t@,
        Message::ChangeFPS(f) => seq![5u16] + bits_words(f),
        Message::Speedhack(f) => seq![6u16] + bits_words(f),
        Message::RespawnTime(f) => seq![7u16] + bits_words(f),
        Message::FrameAdvance(b) => seq![8u16, flag_word(b)],
        Message::AccuracyFix(b) => seq![9u16, flag_word(b)],
        Message::PracticeFix(b) => seq![10u16, flag_word(b)],
        Message::SetNoClip(n) => seq![11u16, no_clip_code(n)],
        Message::SaveReplay(t) => seq![17u16] + t@,
        Message::LoadReplay(t) => seq![18u16] + t@,
        Message::ApplyHack(h) => seq![19u16, hack_code(h)],
        Message::RestoreHack(h) => seq![20u16, hack_code(h)],
        Message::SetReplayType(t) => seq![21u16, replay_type_word(t)],
        _ => unit_words(message_code(m)),
    }
}

/// `s` without its leading 0 words.
pub open spec fn trim_front(s: Seq<u16>) -> Seq<u16>
    decreases s.len(),
{
    if s.len() > 0 && s[0] == 0 {
        trim_front(s.drop_first())
    } else {
        s
    }
}

/// `s` without its trailing 0 words.
pub open spec fn trim_back(s: Seq<u16>) -> Seq<u16>
    decreases s.len(),
{
    if s.len() > 0 && s.last() == 0 {
        trim_back(s.drop_last())
    } else {
        s
    }
}

/// Text as read from the wire: without the NUL characters at either end.
pub open spec fn trimmed(s: Seq<u16>) -> Seq<u16> {
    trim_back(trim_front(s))
}

/// Text with no NUL character at either end.
pub open spec fn no_end_nuls(s: Seq<u16>) -> bool {
    s.len() > 0 ==> s[0] != 0 && s.last() != 0
}

/// Words that make a message: a known number, and the payload that number
/// needs (a no-clip setting 1 to 4, a hack 1 to 6, a replay type 1 or 2).
pub open spec fn well_formed(w: Seq<u16>) -> bool {
    &&& w.len() >= 1
    &&& 1 <= w[0] <= 21
    &&& (w[0] == 5 || w[0] == 6 || w[0] == 7) ==> w.len() >= 3
    &&& (8 <= w[0] <= 11 || 19 <= w[0] <= 21) ==> w.len() >= 2
    &&& w[0] == 11 ==> 1 <= w[1] <= 4
    &&& (w[0] == 19 || w[0] == 20) ==> 1 <= w[1] <= 6
    &&& w[0] == 21 ==> 1 <= w[1] <= 2
}

/// `m` is what the well-formed words `w` stand for.
pub open spec fn decodes_to(w: Seq<u16>, m: Message) -> bool {
    let data = w.subrange(1, w.len() as int);
    &&& message_code(m) == w[0]
    &&& match m {
        Message::Error(t) => t@ == trimmed(data),
        Message::ChangeFPS(f) => f == words_bits(w[1], w[2]),
        Message::Speedhack(f) => f == words_bits(w[1], w[2]),
        Message::RespawnTime(f) => f == words_bits(w[1], w[2]),
        Message::FrameAdvance(b) => b == (w[1] != 0),
        Message::AccuracyFix(b) => b == (w[1] != 0),
        Message::PracticeFix(b) => b == (w[1] != 0),
        Message::SetNoClip(n) => n == no_clip_of_code(w[1]),
        Message::SaveReplay(t) => t@ == trimmed(data),
        Message::LoadReplay(t) => t@ == trimmed(data),
        Message::ApplyHack(h) => h == hack_of_code(w[1]),
        Message::RestoreHack(h) => h == hack_of_code(w[1]),
        Message::SetReplayType(t) => t == if w[1] == 1 {
            ReplayType::XPos
        } else {
            ReplayType::Frame
        },
        _ => true,
    }
}

/// `a` and `b` are the same message: the same number and the same payload.
pub open spec fn same_message(a: Message, b: Message) -> bool {
    match (a, b) {
        (Message::Error(x), Message::Error(y)) => x@ == y@,
        (Message::SaveReplay(x), Message::SaveReplay(y)) => x@ == y@,
        (Message::LoadReplay(x), Message::LoadReplay(y)) => x@ == y@,
        (Message::Error(_), _) | (Message::SaveReplay(_), _) | (Message::LoadReplay(_), _) => false,
        _ => a == b,
    }
}

/// Appends the words of `t`.
fn push_all(out: &mut Vec<u16>, t: &Vec<u16>)
    ensures
        final(out)@ == old(out)@ + t@,
{
    let n = t.len();
    let mut i: usize = 0;
    while i < n
        invariant
            n == t@.len(),
            i <= n,
            out@ == old(out)@ + t@.take(i as int),
        decreases n - i,
    {
        out.push(t[i]);
        i = i + 1;
        assert(out@ =~= old(out)@ + t@.take(i as int));
    }
    assert(t@.take(n as int) =~= t@);
}

/// Appends an `f32` bit pattern as two words, low half first.
fn push_bits(out: &mut Vec<u16>, bits: u32)
    ensures
        final(out)@ == old(out)@ + bits_words(bits),
{
    out.push((bits & 0xFFFFu32) as u16);
    out.push((bits >> 16u32) as u16);
    assert(final(out)@ =~= old(out)@ + bits_words(bits));
}

impl Message {
    /// The message's number (see [`message_code`]).
    pub fn code(&self) -> (r: u16)
        ensures
            r == message_code(*self),
    {
        match self {
            Message::Ping => 1,
            Message::Error(_) => 2,
            Message::Received => 3,
            Message::Exit => 4,
            Message::ChangeFPS(_) => 5,
            Message::Speedhack(_) => 6,
            Message::RespawnTime(_) => 7,
            Message::FrameAdvance(_) => 8,
            Message::AccuracyFix(_) => 9,
            Message::PracticeFix(_) => 10,
            Message::SetNoClip(_) => 11,
            Message::StartPlayback => 12,
            Message::StopPlayback => 13,
            Message::StartRecording => 14,
            Message::StopRecording => 15,
            Message::Append => 16,
            Message::SaveReplay(_) => 17,
            Message::LoadReplay(_) => 18,
            Message::ApplyHack(_) => 19,
            Message::RestoreHack(_) => 20,
            Message::SetReplayType(_) => 21,
        }
    }

    /// The words that carry the message (see [`encoding`]).
    pub fn encode(&self) -> (r: Vec<u16>)
        ensures
            r@ == encoding(*self),
    {
        let code = self.code();
        let mut out: Vec<u16> = Vec::new();
        out.push(code);
        match self {
            Message::Error(t) | Message::SaveReplay(t) | Message::LoadReplay(t) => push_all(&mut out, t),
            Message::ChangeFPS(f) | Message::Speedhack(f) | Message::RespawnTime(f) => push_bits(&mut out, *f),
            Message::FrameAdvance(b) | Message::AccuracyFix(b) | Message::PracticeFix(b) => {
                out.push(if *b { 1 } else { 0 });
            },
            Message::SetNoClip(n) => {
                out.push((*n).into());
            },
            Message::ApplyHack(h) | Message::RestoreHack(h) => {
                out.push((*h).into());
            },
            Message::SetReplayType(t) => {
                out.push(
                    match t {
                        ReplayType::XPos => 1,
                        ReplayType::Frame => 2,
                    },
                );
            },
            _ => {
                out.push(code);
                out.push(0);
            },
        }
        assert(out@ =~= encoding(*self));
        out
    }
}

/// The text of `w` from word `from` on, without NUL characters at either
/// end.
fn trimmed_text(w: &Vec<u16>, from: usize) -> (r: Vec<u16>)
    requires
        from <= w@.len(),
    ensures
        r@ == trimmed(w@.subrange(from as int, w@.len() as int)),
{
    let n = w.len();
    let mut start = from;
    while start < n && w[start] == 0
        invariant
            n == w@.len(),
            from <= start <= n,
            trim_front(w@.subrange(from as int, n as int)) == trim_front(w@.subrange(start as int, n as int)),
        decreases n - start,
    {
        assert(w@.subrange(start as int, n as int).drop_first() =~= w@.subrange(start + 1, n as int));
        start = start + 1;
    }
    assert(trim_front(w@.subrange(start as int, n as int)) == w@.subrange(start as int, n as int));
    let mut end = n;
    while end > start && w[end - 1] == 0
        invariant
            n == w@.len(),
            start <= end <= n,
            trim_back(w@.subrange(start as int, n as int)) == trim_back(w@.subrange(start as int, end as int)),
        decreases end,
    {
        assert(w@.subrange(start as int, end as int).drop_last() =~= w@.subrange(start as int, end - 1));
        end = end - 1;
    }
    assert(trim_back(w@.subrange(start as int, end as int)) == w@.subrange(start as int, end as int));
    let mut out: Vec<u16> = Vec::new();
    let mut i = start;
    while i < end
        invariant
            n == w@.len(),
            start <= i <= end <= n,
            out@ == w@.subrange(start as int, i as int),
        decreases end - i,
    {
        out.push(w[i]);
        i = i + 1;
        assert(out@ =~= w@.subrange(start as int, i as int));
    }
    out
}

/// Whether `w` makes a message (see [`well_formed`]).
pub fn is_well_formed(w: &Vec<u16>) -> (r: bool)
    ensures
        r == well_formed(w@),
{
    if w.len() < 1 {
        return false;
    }
    let code = w[0];
    if !(1 <= code && code <= 21) {
        return false;
    }
    if (code == 5 || code == 6 || code == 7) && w.len() < 3 {
        return false;
    }
    if ((8 <= code && code <= 11) || (19 <= code && code <= 21)) && w.len() < 2 {
        return false;
    }
    if code == 11 && !(1 <= w[1] && w[1] <= 4) {
        return false;
    }
    if (code == 19 || code == 20) && !(1 <= w[1] && w[1] <= 6) {
        return false;
    }
    if code == 21 && !(1 <= w[1] && w[1] <= 2) {
        return false;
    }
    true
}

impl Message {
    /// The message that the words `w` carry; `w` must make one (see
    /// [`well_formed`]).
    pub fn decode(w: &Vec<u16>) -> (r: Message)
        requires
            well_formed(w@),
        ensures
            decodes_to(w@, r),
    {
        let code = w[0];
        if code == 1 {
            Message::Ping
        } else if code == 2 {
            Message::Error(trimmed_text(w, 1))
        } else if code == 3 {
            Message::Received
        } else if code == 4 {
            Message::Exit
        } else if code == 5 {
            Message::ChangeFPS((w[1] as u32) | ((w[2] as u32) << 16u32))
        } else if code == 6 {
            Message::Speedhack((w[1] as u32) | ((w[2] as u32) << 16u32))
        } else if code == 7 {
            Message::RespawnTime((w[1] as u32) | ((w[2] as u32) << 16u32))
        } else if code == 8 {
            Message::FrameAdvance(w[1] != 0)
        } else if code == 9 {
            Message::AccuracyFix(w[1] != 0)
        } else if code == 10 {
            Message::PracticeFix(w[1] != 0)
        } else if code == 11 {
            Message::SetNoClip(NoClip::from_u16(w[1]))
        } else if code == 12 {
            Message::StartPlayback
        } else if code == 13 {
            Message::StopPlayback
        } else if code == 14 {
            Message::StartRecording
        } else if code == 15 {
            Message::StopRecording
        } else if code == 16 {
            Message::Append
        } else if code == 17 {
            Message::SaveReplay(trimmed_text(w, 1))
        } else if code == 18 {
            Message::LoadReplay(trimmed_text(w, 1))
        } else if code == 19 {
            Message::ApplyHack(HackName::from_u16(w[1]))
        } else if code == 20 {
            Message::RestoreHack(HackName::from_u16(w[1]))
        } else if w[1] == 1 {
            Message::SetReplayType(ReplayType::XPos)
        } else {
            Message::SetReplayType(ReplayType::Frame)
        }
    }
}

proof fn lemma_bits_round_trip(b: u32)
    ensures
        words_bits((b & 0xFFFFu32) as u16, (b >> 16u32) as u16) == b,
{
    assert(((((b & 0xFFFFu32) as u16) as u32) | ((((b >> 16u32) as u16) as u32) << 16u32)) == b)
        by (bit_vector);
}

proof fn lemma_trimmed_plain(t: Seq<u16>)
    requires
        no_end_nuls(t),
    ensures
        trimmed(t) == t,
{
    assert(trim_front(t) == t);
    assert(trim_back(t) == t);
}

/// The words of every message make a message, numbered by [`message_code`],
/// and read back as that same message, provided its text has no NUL
/// character at either end.
pub proof fn encode_then_decode(m: Message)
    requires
        m matches Message::Error(t) ==> no_end_nuls(t@),
        m matches Message::SaveReplay(t) ==> no_end_nuls(t@),
        m matches Message::LoadReplay(t) ==> no_end_nuls(t@),
    ensures
        well_formed(encoding(m)),
        encoding(m)[0] == message_code(m),
        decodes_to(encoding(m), m),
{
    let w = encoding(m);
    match m {
        Message::Error(t) | Message::SaveReplay(t) | Message::LoadReplay(t) => {
            assert(w.subrange(1, w.len() as int) =~= t@);
            lemma_trimmed_plain(t@);
        },
        Message::ChangeFPS(f) | Message::Speedhack(f) | Message::RespawnTime(f) => {
            lemma_bits_round_trip(f);
        },
        Message::SetNoClip(n) => {
            crate::omegabot::no_clip_code_round_trip(n);
        },
        Message::ApplyHack(h) | Message::RestoreHack(h) => {
            crate::hack_handler::hack_code_round_trip(h);
        },
        _ => {},
    }
}

/// Words read back as at most one message: two messages that the same words
/// stand for are the same message.
pub proof fn decoding_is_unique(w: Seq<u16>, a: Message, b: Message)
    requires
        well_formed(w),
        decodes_to(w, a),
        decodes_to(w, b),
    ensures
        same_message(a, b),
{
}

} // verus!
