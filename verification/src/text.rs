//! Plain-text forms that the chart serializer relies on: decimal numeric
//! literals for value cells, and JSON string escaping for label cells.

use vstd::prelude::*;
use vstd::string::StrSliceExecFns;
use vstd::string::StringExecFns;

verus! {

/// The character is a decimal digit.
pub open spec fn is_digit(c: char) -> bool {
    48 <= c as u32 && c as u32 <= 57
}

/// Every position of `s` in `lo..hi` holds a decimal digit.
pub open spec fn all_digits(s: Seq<char>, lo: int, hi: int) -> bool {
    forall|i: int| lo <= i < hi ==> is_digit(#[trigger] s[i])
}

/// `s` is a decimal numeric literal: an optional leading minus sign, one or
/// more digits, and an optional fractional part written as a dot followed by
/// one or more digits. This is the form a value cell must have to be embedded
/// in the serialized chart as a number.
pub open spec fn is_number_text(s: Seq<char>) -> bool {
    let lo: int = if s.len() > 0 && s[0] == '-' {
        1
    } else {
        0
    };
    let n: int = s.len() as int;
    lo < n && (all_digits(s, lo, n) || (exists|d: int|
        lo < d && d + 1 < n && #[trigger] s[d] == '.' && all_digits(s, lo, d) && all_digits(
            s,
            d + 1,
            n,
        )))
}

/// Index of the first non-digit character of `s` at or after `from`,
/// or the length of `s` when only digits follow.
fn scan_digits(s: &str, from: usize, n: usize) -> (r: usize)
    requires
        n == s@.len(),
        from <= n,
    ensures
        from <= r <= n,
        all_digits(s@, from as int, r as int),
        r < n ==> !is_digit(s@[r as int]),
{
    let mut i: usize = from;
    loop
        invariant
            from <= i <= n,
            n == s@.len(),
            all_digits(s@, from as int, i as int),
        ensures
            from <= i <= n,
            all_digits(s@, from as int, i as int),
            i < n ==> !is_digit(s@[i as int]),
        decreases n - i,
    {
        if i >= n {
            break ;
        }
        let c: char = s.get_char(i);
        let u: u32 = c as u32;
        if !(48 <= u && u <= 57) {
            break ;
        }
        i += 1;
    }
    i
}

/// Decides whether `s` is a decimal numeric literal.
pub fn is_numeric_literal(s: &str) -> (b: bool)
    ensures
        b == is_number_text(s@),
{
    let ghost sn = s@;
    let n: usize = s.unicode_len();
    if n == 0 {
        return false;
    }
    let first: char = s.get_char(0);
    let lo: usize = if first == '-' {
        1
    } else {
        0
    };
    if lo == n {
        return false;
    }
    let de: usize = scan_digits(s, lo, n);
    let ghost glo = lo as int;
    let ghost gde = de as int;
    let ghost gn = n as int;
    if de == lo {
        proof {
            assert(!is_digit(sn[glo]));
            assert(!all_digits(sn, glo, gn));
            assert forall|d: int|
                !(glo < d && d + 1 < gn && #[trigger] sn[d] == '.' && all_digits(sn, glo, d)
                    && all_digits(sn, d + 1, gn)) by {
                if glo < d && all_digits(sn, glo, d) {
                    assert(is_digit(sn[glo]));
                }
            }
        }
        return false;
    }
    if de == n {
        return true;
    }
    let c: char = s.get_char(de);
    if c != '.' {
        proof {
            assert(!is_digit(sn[gde]));
            assert(!all_digits(sn, glo, gn));
            assert forall|d: int|
                !(glo < d && d + 1 < gn && #[trigger] sn[d] == '.' && all_digits(sn, glo, d)
                    && all_digits(sn, d + 1, gn)) by {
                if glo < d && d + 1 < gn && sn[d] == '.' && all_digits(sn, glo, d) {
                    if d < gde {
                        assert(is_digit(sn[d]));
                    } else if d > gde {
                        assert(is_digit(sn[gde]));
                    }
                }
            }
        }
        return false;
    }
    if de + 1 == n {
        proof {
            assert(!is_digit(sn[gde]));
            assert(!all_digits(sn, glo, gn));
            assert forall|d: int|
                !(glo < d && d + 1 < gn && #[trigger] sn[d] == '.' && all_digits(sn, glo, d)
                    && all_digits(sn, d + 1, gn)) by {
                if glo < d && d + 1 < gn && sn[d] == '.' && all_digits(sn, glo, d) {
                    assert(d < gde);
                    assert(is_digit(sn[d]));
                }
            }
        }
        return false;
    }
    let fe: usize = scan_digits(s, de + 1, n);
    let ghost gfe = fe as int;
    if fe < n {
        proof {
            assert(!is_digit(sn[gfe]));
            assert(!all_digits(sn, glo, gn));
            assert forall|d: int|
                !(glo < d && d + 1 < gn && #[trigger] sn[d] == '.' && all_digits(sn, glo, d)
                    && all_digits(sn, d + 1, gn)) by {
                if glo < d && d + 1 < gn && sn[d] == '.' && all_digits(sn, glo, d) && all_digits(
                    sn,
                    d + 1,
                    gn,
                ) {
                    if d < gde {
                        assert(is_digit(sn[d]));
                    } else if d == gde {
                        assert(is_digit(sn[gfe]));
                    } else {
                        assert(is_digit(sn[gde]));
                    }
                }
            }
        }
        return false;
    }
    proof {
        assert(glo < gde && gde + 1 < gn && sn[gde] == '.' && all_digits(sn, glo, gde)
            && all_digits(sn, gde + 1, gn));
    }
    true
}

/// The character may appear in a serialized JSON string: every character
/// except the control characters, of which only newline, carriage return and
/// tab are written (in escaped form).
pub open spec fn escapable_char(c: char) -> bool {
    c as u32 >= 32 || c == '\n' || c == '\r' || c == '\t'
}

/// Every character of `s` may appear in a serialized JSON string.
pub open spec fn escapable_text(s: Seq<char>) -> bool {
    forall|i: int| 0 <= i < s.len() ==> escapable_char(#[trigger] s[i])
}

/// The JSON escape of one character.
pub open spec fn escape_char(c: char) -> Seq<char> {
    if c == '"' {
        seq!['\\', '"']
    } else if c == '\\' {
        seq!['\\', '\\']
    } else if c == '\n' {
        seq!['\\', 'n']
    } else if c == '\r' {
        seq!['\\', 'r']
    } else if c == '\t' {
        seq!['\\', 't']
    } else {
        seq![c]
    }
}

/// The JSON escape of a text: each character replaced by its escape.
pub open spec fn escaped(s: Seq<char>) -> Seq<char>
    decreases s.len(),
{
    if s.len() == 0 {
        Seq::empty()
    } else {
        escaped(s.drop_last()) + escape_char(s.last())
    }
}

/// Appends the JSON escape of `s` to `out`. Returns false, leaving `out` in
/// an unspecified state, when `s` holds a control character that the
/// serialized form cannot carry.
pub(crate) fn append_json_escaped(out: &mut String, s: &str) -> (ok: bool)
    ensures
        ok == escapable_text(s@),
        ok ==> final (out)@ == old(out)@ + escaped(s@),
{
    let n: usize = s.unicode_len();
    let mut i: usize = 0;
    while i < n
        invariant
            i <= n,
            n == s@.len(),
            out@ == old(out)@ + escaped(s@.subrange(0, i as int)),
            forall|j: int| 0 <= j < i ==> escapable_char(#[trigger] s@[j]),
        decreases n - i,
    {
        let c: char = s.get_char(i);
        let ghost pre = s@.subrange(0, i as int);
        if c == '"' {
            out.append("\\\"");
            proof {
                reveal_strlit("\\\"");
                assert("\\\""@ =~= escape_char(c));
            }
        } else if c == '\\' {
            out.append("\\\\");
            proof {
                reveal_strlit("\\\\");
                assert("\\\\"@ =~= escape_char(c));
            }
        } else if c == '\n' {
            out.append("\\n");
            proof {
                reveal_strlit("\\n");
                assert("\\n"@ =~= escape_char(c));
            }
        } else if c == '\r' {
            out.append("\\r");
            proof {
                reveal_strlit("\\r");
                assert("\\r"@ =~= escape_char(c));
            }
        } else if c == '\t' {
            out.append("\\t");
            proof {
                reveal_strlit("\\t");
                assert("\\t"@ =~= escape_char(c));
            }
        } else if (c as u32) < 32 {
            return false;
        } else {
            let piece: &str = s.substring_char(i, i + 1);
            out.append(piece);
            proof {
                assert(piece@ =~= seq![c]);
                assert(escape_char(c) =~= seq![c]);
            }
        }
        proof {
            assert(s@.subrange(0, i as int + 1).drop_last() =~= pre);
            assert(s@.subrange(0, i as int + 1).last() == s@[i as int]);
        }
        i += 1;
    }
    proof {
        assert(s@.subrange(0, n as int) =~= s@);
    }
    true
}

} // verus!
