//! Diagnostic text for a keypair: the public bytes in list form, the secret elided.
use vstd::prelude::*;

verus! {

/// The text of one decimal digit.
pub open spec fn digit_text(d: int) -> Seq<char> {
    if d == 0 {
        "0"@
    } else if d == 1 {
        "1"@
    } else if d == 2 {
        "2"@
    } else if d == 3 {
        "3"@
    } else if d == 4 {
        "4"@
    } else if d == 5 {
        "5"@
    } else if d == 6 {
        "6"@
    } else if d == 7 {
        "7"@
    } else if d == 8 {
        "8"@
    } else {
        "9"@
    }
}

/// A byte in decimal, without leading zeros.
pub open spec fn decimal(b: u8) -> Seq<char> {
    if b >= 100 {
        digit_text((b / 100) as int) + digit_text((b / 10 % 10) as int) + digit_text(
            (b % 10) as int,
        )
    } else if b >= 10 {
        digit_text((b / 10) as int) + digit_text((b % 10) as int)
    } else {
        digit_text(b as int)
    }
}

/// The bytes in decimal, separated by a comma and a space.
pub open spec fn byte_list(s: Seq<u8>) -> Seq<char>
    decreases s.len(),
{
    if s.len() == 0 {
        Seq::empty()
    } else if s.len() == 1 {
        decimal(s[0])
    } else {
        byte_list(s.drop_last()) + ", "@ + decimal(s.last())
    }
}

/// The diagnostic text of a keypair with this public key.
pub open spec fn keypair_text(public: Seq<u8>) -> Seq<char> {
    "public: ["@ + byte_list(public) + "]\nsecret: <elided>"@
}

fn digit_str(d: u8) -> (r: &'static str)
    requires
        d < 10,
    ensures
        r@ == digit_text(d as int),
{
    match d {
        0 => "0",
        1 => "1",
        2 => "2",
        3 => "3",
        4 => "4",
        5 => "5",
        6 => "6",
        7 => "7",
        8 => "8",
        _ => "9",
    }
}

fn push_decimal(out: &mut String, b: u8)
    ensures
        final(out)@ == old(out)@ + decimal(b),
{
    if b >= 100 {
        out.append(digit_str(b / 100));
        out.append(digit_str((b / 10) % 10));
        out.append(digit_str(b % 10));
    } else if b >= 10 {
        out.append(digit_str(b / 10));
        out.append(digit_str(b % 10));
    } else {
        out.append(digit_str(b));
    }
}

/// Render the diagnostic text for a keypair whose public key is `public`.
pub fn render_keypair(public: &[u8]) -> (r: String)
    ensures
        r@ == keypair_text(public@),
{
    let mut out = String::new();
    out.append("public: [");
    let ghost head = out@;
    let mut i: usize = 0;
    while i < public.len()
        invariant
            i <= public@.len(),
            out@ == head + byte_list(public@.subrange(0, i as int)),
        decreases public@.len() - i,
    {
        let ghost before = public@.subrange(0, i as int);
        let ghost after = public@.subrange(0, i + 1);
        assert(after.drop_last() =~= before);
        if i > 0 {
            out.append(", ");
        }
        push_decimal(&mut out, public[i]);
        proof {
            if i == 0 {
                assert(before =~= Seq::<u8>::empty());
            }
            assert(out@ =~= head + byte_list(after));
        }
        i = i + 1;
    }
    assert(public@.subrange(0, public@.len() as int) =~= public@);
    out.append("]\nsecret: <elided>");
    out
}

} // verus!
