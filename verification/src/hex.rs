use vstd::prelude::*;

verus! {

/// The sixteen hexadecimal digits, lower case.
pub open spec fn hex_digits() -> Seq<char> {
    seq!['0', '1', '2', '3', '4', '5', '6', '7', '8', '9', 'a', 'b', 'c', 'd', 'e', 'f']
}

/// The text of `bytes` in hexadecimal: two lower-case digits for each byte,
/// the upper half of the byte first.
pub open spec fn hex_text(bytes: Seq<u8>) -> Seq<char> {
    Seq::new(
        2 * bytes.len(),
        |i: int|
            if i % 2 == 0 {
                hex_digits()[bytes[i / 2] as int / 16]
            } else {
                hex_digits()[bytes[i / 2] as int % 16]
            },
    )
}

/// The digit of a number below sixteen.
fn digit(n: u8) -> (r: &'static str)
    requires
        n < 16,
    ensures
        r@ == seq![hex_digits()[n as int]],
{
    proof {
        reveal_strlit("0");
        reveal_strlit("1");
        reveal_strlit("2");
        reveal_strlit("3");
        reveal_strlit("4");
        reveal_strlit("5");
        reveal_strlit("6");
        reveal_strlit("7");
        reveal_strlit("8");
        reveal_strlit("9");
        reveal_strlit("a");
        reveal_strlit("b");
        reveal_strlit("c");
        reveal_strlit("d");
        reveal_strlit("e");
        reveal_strlit("f");
    }
    let r: &'static str = match n {
        0 => "0",
        1 => "1",
        2 => "2",
        3 => "3",
        4 => "4",
        5 => "5",
        6 => "6",
        7 => "7",
        8 => "8",
        9 => "9",
        10 => "a",
        11 => "b",
        12 => "c",
        13 => "d",
        14 => "e",
        _ => "f",
    };
    assert(r@ =~= seq![hex_digits()[n as int]]);
    r
}

/// Writes `bytes` in hexadecimal.
pub fn encode_hex(bytes: &[u8]) -> (s: String)
    ensures
        s@ == hex_text(bytes@),
{
    let mut s: String = String::new();
    let mut i: usize = 0;
    while i < bytes.len()
        invariant
            i <= bytes.len(),
            s@ == hex_text(bytes@.subrange(0, i as int)),
        decreases bytes.len() - i,
    {
        let b: u8 = bytes[i];
        let ghost before = s@;
        s.append(digit(b / 16));
        s.append(digit(b % 16));
        i += 1;
        assert(s@ =~= hex_text(bytes@.subrange(0, i as int))) by {
            let now = bytes@.subrange(0, i as int);
            let was = bytes@.subrange(0, i - 1);
            assert(s@.len() == 2 * i);
            assert forall|k: int| 0 <= k < 2 * i implies s@[k] == hex_text(now)[k] by {
                if k < 2 * (i - 1) {
                    assert(s@[k] == before[k]);
                    assert(was[k / 2] == now[k / 2]);
                } else {
                    assert(now[k / 2] == b);
                }
            }
        }
    }
    assert(bytes@.subrange(0, bytes.len() as int) =~= bytes@);
    s
}

} // verus!
