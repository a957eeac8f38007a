use vstd::prelude::*;
use vstd::string::{StrSliceExecFns, StringExecFns};

verus! {

/// Characters that stand unchanged in a URL query component: the RFC 3986
/// unreserved set.
pub open spec fn is_unreserved(c: char) -> bool {
    ||| 'A' <= c && c <= 'Z'
    ||| 'a' <= c && c <= 'z'
    ||| '0' <= c && c <= '9'
    ||| c == '-'
    ||| c == '.'
    ||| c == '_'
    ||| c == '~'
}

/// The upper-case hexadecimal digit for a value below sixteen.
pub open spec fn hex_char(n: int) -> char
    recommends
        0 <= n < 16,
{
    if n == 0 {
        '0'
    } else if n == 1 {
        '1'
    } else if n == 2 {
        '2'
    } else if n == 3 {
        '3'
    } else if n == 4 {
        '4'
    } else if n == 5 {
        '5'
    } else if n == 6 {
        '6'
    } else if n == 7 {
        '7'
    } else if n == 8 {
        '8'
    } else if n == 9 {
        '9'
    } else if n == 10 {
        'A'
    } else if n == 11 {
        'B'
    } else if n == 12 {
        'C'
    } else if n == 13 {
        'D'
    } else if n == 14 {
        'E'
    } else {
        'F'
    }
}

/// How one ASCII character appears in a percent-encoded query component:
/// unreserved characters stand as themselves, every other one as a percent
/// sign followed by the two hexadecimal digits of its code.
pub open spec fn encoded_char(c: char) -> Seq<char> {
    if is_unreserved(c) {
        seq![c]
    } else {
        seq!['%', hex_char((c as u32) as int / 16), hex_char((c as u32) as int % 16)]
    }
}

/// The percent-encoding of an ASCII character sequence.
pub open spec fn percent_encoding(s: Seq<char>) -> Seq<char>
    decreases s.len(),
{
    if s.len() == 0 {
        Seq::empty()
    } else {
        encoded_char(s[0]) + percent_encoding(s.drop_first())
    }
}

pub proof fn lemma_percent_encoding_push(s: Seq<char>, c: char)
    ensures
        percent_encoding(s.push(c)) == percent_encoding(s) + encoded_char(c),
    decreases s.len(),
{
    if s.len() == 0 {
        assert(s.push(c).drop_first() =~= Seq::<char>::empty());
        assert(s.push(c)[0] == c);
        assert(percent_encoding(Seq::<char>::empty()) == Seq::<char>::empty());
        assert(percent_encoding(s.push(c)) == encoded_char(c) + percent_encoding(
            s.push(c).drop_first(),
        ));
        assert(percent_encoding(s.push(c)) =~= percent_encoding(s) + encoded_char(c));
    } else {
        assert(s.push(c).drop_first() =~= s.drop_first().push(c));
        lemma_percent_encoding_push(s.drop_first(), c);
        assert(s.push(c)[0] == s[0]);
        assert(percent_encoding(s.push(c)) == encoded_char(s[0]) + percent_encoding(
            s.drop_first().push(c),
        ));
        assert(percent_encoding(s.push(c)) =~= percent_encoding(s) + encoded_char(c));
    }
}

fn is_unreserved_char(c: char) -> (r: bool)
    ensures
        r == is_unreserved(c),
{
    ('A' <= c && c <= 'Z') || ('a' <= c && c <= 'z') || ('0' <= c && c <= '9') || c == '-' || c
        == '.' || c == '_' || c == '~'
}

fn hex_digit_str(n: u8) -> (r: &'static str)
    requires
        n < 16,
    ensures
        r@ =~= seq![hex_char(n as int)],
{
    match n {
        0 => {
            proof {
                reveal_strlit("0");
            }
            "0"
        },
        1 => {
            proof {
                reveal_strlit("1");
            }
            "1"
        },
        2 => {
            proof {
                reveal_strlit("2");
            }
            "2"
        },
        3 => {
            proof {
                reveal_strlit("3");
            }
            "3"
        },
        4 => {
            proof {
                reveal_strlit("4");
            }
            "4"
        },
        5 => {
            proof {
                reveal_strlit("5");
            }
            "5"
        },
        6 => {
            proof {
                reveal_strlit("6");
            }
            "6"
        },
        7 => {
            proof {
                reveal_strlit("7");
            }
            "7"
        },
        8 => {
            proof {
                reveal_strlit("8");
            }
            "8"
        },
        9 => {
            proof {
                reveal_strlit("9");
            }
            "9"
        },
        10 => {
            proof {
                reveal_strlit("A");
            }
            "A"
        },
        11 => {
            proof {
                reveal_strlit("B");
            }
            "B"
        },
        12 => {
            proof {
                reveal_strlit("C");
            }
            "C"
        },
        13 => {
            proof {
                reveal_strlit("D");
            }
            "D"
        },
        14 => {
            proof {
                reveal_strlit("E");
            }
            "E"
        },
        _ => {
            proof {
                reveal_strlit("F");
            }
            "F"
        },
    }
}

/// Percent-encode an ASCII string for use as a URL query component.
pub fn percent_encode(s: &str) -> (r: String)
    requires
        s.is_ascii(),
    ensures
        r@ == percent_encoding(s@),
{
    let len = s.unicode_len();
    let mut r = String::new();
    let mut i: usize = 0;
    while i < len
        invariant
            len == s@.len(),
            vstd::string::is_ascii(s),
            i <= len,
            r@ == percent_encoding(s@.subrange(0, i as int)),
        decreases len - i,
    {
        let c = s.get_char(i);
        proof {
            assert(s@.subrange(0, i as int).push(c) =~= s@.subrange(0, (i + 1) as int));
            lemma_percent_encoding_push(s@.subrange(0, i as int), c);
        }
        if is_unreserved_char(c) {
            let piece = s.substring_ascii(i, i + 1);
            proof {
                assert(piece@ =~= seq![c]);
            }
            r.append(piece);
        } else {
            proof {
                reveal_strlit("%");
                assert('\0' <= c <= '\u{7f}');
                assert((c as u32) < 128);
            }
            let code = c as u32;
            r.append("%");
            r.append(hex_digit_str((code / 16) as u8));
            r.append(hex_digit_str((code % 16) as u8));
            proof {
                assert(r@ =~= percent_encoding(s@.subrange(0, i as int)) + encoded_char(c));
            }
        }
        i = i + 1;
        proof {
            assert(r@ == percent_encoding(s@.subrange(0, i as int)));
        }
    }
    proof {
        assert(s@.subrange(0, len as int) =~= s@);
    }
    r
}

} // verus!
