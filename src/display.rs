use vstd::prelude::*;
use crate::game::Message;

verus! {

/// A failure of the character display, as reported by its driver.
#[derive(PartialEq, Eq, Structural, Clone, Copy, Debug)]
pub enum LcdError {
    /// The controller did not accept its setup commands.
    InitError,
    /// The controller did not accept a clear command.
    ClearError,
    /// A character transfer was not accepted.
    WriteStrError,
}

/// The ASCII code of the decimal digit `d`.
pub open spec fn digit_byte(d: nat) -> u8 {
    (48 + d) as u8
}

/// The decimal notation of `n`, most significant digit first, without
/// leading zeros.
pub open spec fn decimal(n: nat) -> Seq<u8>
    decreases n,
{
    if n < 10 {
        seq![digit_byte(n)]
    } else {
        decimal(n / 10).push(digit_byte(n % 10))
    }
}

/// The ASCII text of a message.
pub open spec fn message_text(m: Message) -> Seq<u8> {
    match m {
        Message::Red => seq![82u8, 101u8, 100u8, 33u8, 33u8],
        Message::Blue => seq![66u8, 108u8, 117u8, 101u8, 33u8, 33u8],
        Message::Correct => seq![67u8, 111u8, 114u8, 114u8, 101u8, 99u8, 116u8, 33u8],
        Message::Incorrect => seq![73u8, 110u8, 99u8, 111u8, 114u8, 114u8, 101u8, 99u8, 116u8, 33u8],
        Message::Counter(v) => decimal(v as nat),
    }
}

/// Appends the decimal notation of `n` to `out`.
pub fn push_decimal(n: u32, out: &mut Vec<u8>)
    ensures
        final(out)@ == old(out)@ + decimal(n as nat),
    decreases n,
{
    if n >= 10 {
        push_decimal(n / 10, out);
    }
    out.push(48u8 + (n % 10) as u8);
    proof {
        if n >= 10 {
            assert(old(out)@ + decimal(n as nat) =~= (old(out)@ + decimal((n / 10) as nat)).push(
                digit_byte((n % 10) as nat),
            ));
        }
    }
}

fn bytes_of(s: &[u8]) -> (r: Vec<u8>)
    ensures
        r@ == s@,
{
    let mut v: Vec<u8> = Vec::new();
    let mut i: usize = 0;
    while i < s.len()
        invariant
            i <= s@.len(),
            v@ == s@.subrange(0, i as int),
        decreases s@.len() - i,
    {
        v.push(s[i]);
        i = i + 1;
        assert(v@ =~= s@.subrange(0, i as int));
    }
    assert(v@ =~= s@);
    v
}

impl Message {
    /// The ASCII bytes that the display shows for this message.
    pub fn text(&self) -> (r: Vec<u8>)
        ensures
            r@ == message_text(*self),
    {
        match *self {
            Message::Red => {
                let r = bytes_of(&[82u8, 101u8, 100u8, 33u8, 33u8]);
                assert(r@ =~= message_text(*self));
                r
            },
            Message::Blue => {
                let r = bytes_of(&[66u8, 108u8, 117u8, 101u8, 33u8, 33u8]);
                assert(r@ =~= message_text(*self));
                r
            },
            Message::Correct => {
                let r = bytes_of(&[67u8, 111u8, 114u8, 114u8, 101u8, 99u8, 116u8, 33u8]);
                assert(r@ =~= message_text(*self));
                r
            },
            Message::Incorrect => {
                let r = bytes_of(&[73u8, 110u8, 99u8, 111u8, 114u8, 114u8, 101u8, 99u8, 116u8, 33u8]);
                assert(r@ =~= message_text(*self));
                r
            },
            Message::Counter(v) => {
                let mut r: Vec<u8> = Vec::new();
                push_decimal(v, &mut r);
                assert(r@ =~= message_text(*self));
                r
            },
        }
    }
}

} // verus!
