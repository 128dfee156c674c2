//! Parsing of OS process-listing output into a snapshot of lower-cased
//! process names. The listing command itself runs outside this library; the
//! parsers take its captured text.

use vstd::prelude::*;
use vstd::string::StrSliceExecFns;

use crate::detect::snap_view;
use crate::text::lower_of;
use crate::text::lowercase;
use crate::text::spec_trim;
use crate::text::trim_str;

verus! {

/// Index of the first line break in `s`, or `s.len()` when there is none.
pub open spec fn find_nl(s: Seq<char>) -> int
    decreases s.len(),
{
    if s.len() == 0 {
        0
    } else if s[0] == '\n' {
        0
    } else {
        1 + find_nl(s.drop_first())
    }
}

/// The first-line-break index lies within the string.
pub proof fn lemma_find_nl_bounds(s: Seq<char>)
    ensures
        0 <= find_nl(s) <= s.len(),
    decreases s.len(),
{
    if s.len() > 0 && s[0] != '\n' {
        lemma_find_nl_bounds(s.drop_first());
    }
}

/// Index of the first occurrence of a quote followed by a comma in `s`, or
/// `s.len()` when there is none.
pub open spec fn find_quote_comma(s: Seq<char>) -> int
    decreases s.len(),
{
    if s.len() < 2 {
        s.len() as int
    } else if s[0] == '"' && s[1] == ',' {
        0
    } else {
        1 + find_quote_comma(s.drop_first())
    }
}

/// The quote-comma index lies within the string.
pub proof fn lemma_find_quote_comma_bounds(s: Seq<char>)
    ensures
        0 <= find_quote_comma(s) <= s.len(),
    decreases s.len(),
{
    if s.len() >= 2 && !(s[0] == '"' && s[1] == ',') {
        lemma_find_quote_comma_bounds(s.drop_first());
    }
}

/// The process-name field of one line of CSV process-listing output: the
/// trimmed line, or, when it opens with a quote, what follows the quote up
/// to the closing quote-comma.
pub open spec fn csv_field(line: Seq<char>) -> Seq<char> {
    let t = spec_trim(line);
    if t.len() > 0 && t[0] == '"' {
        let rest = t.skip(1);
        rest.take(find_quote_comma(rest))
    } else {
        t
    }
}

/// The snapshot parsed from CSV process-listing output: one lower-cased
/// name field per non-blank line.
pub open spec fn spec_parse_tasklist(s: Seq<char>) -> Seq<Seq<char>>
    decreases s.len(),
    via spec_parse_tasklist_dec
{
    if s.len() == 0 {
        Seq::empty()
    } else {
        let nl = find_nl(s);
        let line = s.take(nl);
        let rest = if nl < s.len() {
            spec_parse_tasklist(s.skip(nl + 1))
        } else {
            Seq::empty()
        };
        if spec_trim(line).len() == 0 {
            rest
        } else {
            seq![lower_of(csv_field(line))] + rest
        }
    }
}

#[via_fn]
proof fn spec_parse_tasklist_dec(s: Seq<char>) {
    if s.len() > 0 {
        lemma_find_nl_bounds(s);
    }
}

/// The snapshot parsed from plain process-listing output: each line trimmed
/// and lower-cased, blank results dropped.
pub open spec fn spec_parse_ps(s: Seq<char>) -> Seq<Seq<char>>
    decreases s.len(),
    via spec_parse_ps_dec
{
    if s.len() == 0 {
        Seq::empty()
    } else {
        let nl = find_nl(s);
        let line = s.take(nl);
        let rest = if nl < s.len() {
            spec_parse_ps(s.skip(nl + 1))
        } else {
            Seq::empty()
        };
        let name = lower_of(spec_trim(line));
        if name.len() == 0 {
            rest
        } else {
            seq![name] + rest
        }
    }
}

#[via_fn]
proof fn spec_parse_ps_dec(s: Seq<char>) {
    if s.len() > 0 {
        lemma_find_nl_bounds(s);
    }
}

/// Find the first line break, or the string's length.
fn find_newline(text: &str) -> (r: usize)
    ensures
        r == find_nl(text@),
        r <= text@.len(),
    decreases text@.len(),
{
    let l = text.unicode_len();
    if l == 0 {
        0
    } else if text.get_char(0) == '\n' {
        0
    } else {
        let rest = text.substring_char(1, l);
        proof {
            assert(rest@ =~= text@.drop_first());
        }
        1 + find_newline(rest)
    }
}

/// Find the first quote-comma, or the string's length.
fn find_quote_comma_at(text: &str) -> (r: usize)
    ensures
        r == find_quote_comma(text@),
        r <= text@.len(),
    decreases text@.len(),
{
    let l = text.unicode_len();
    if l < 2 {
        l
    } else if text.get_char(0) == '"' && text.get_char(1) == ',' {
        0
    } else {
        let rest = text.substring_char(1, l);
        proof {
            assert(rest@ =~= text@.drop_first());
        }
        1 + find_quote_comma_at(rest)
    }
}

/// Extract the name field of one CSV line.
fn csv_field_of(line: &str) -> (r: &str)
    ensures
        r@ == csv_field(line@),
{
    let t = trim_str(line);
    let tl = t.unicode_len();
    if tl > 0 && t.get_char(0) == '"' {
        let rest = t.substring_char(1, tl);
        proof {
            assert(rest@ =~= t@.skip(1));
        }
        let q = find_quote_comma_at(rest);
        let field = rest.substring_char(0, q);
        proof {
            assert(field@ =~= rest@.take(find_quote_comma(rest@)));
        }
        field
    } else {
        t
    }
}

/// Parse CSV process-listing output (as produced by the Windows listing
/// command) into lower-cased process names, one per non-blank line.
pub fn parse_tasklist_output(text: &str) -> (r: Vec<String>)
    ensures
        snap_view(r@) == spec_parse_tasklist(text@),
    decreases text@.len(),
{
    let l = text.unicode_len();
    if l == 0 {
        let r: Vec<String> = Vec::new();
        proof {
            assert(snap_view(r@) =~= spec_parse_tasklist(text@));
        }
        return r;
    }
    let nl = find_newline(text);
    let line = text.substring_char(0, nl);
    proof {
        assert(line@ =~= text@.take(find_nl(text@)));
    }
    let mut rest: Vec<String> = if nl < l {
        let tail = text.substring_char(nl + 1, l);
        proof {
            assert(tail@ =~= text@.skip(find_nl(text@) + 1));
        }
        parse_tasklist_output(tail)
    } else {
        Vec::new()
    };
    let t = trim_str(line);
    if t.unicode_len() == 0 {
        proof {
            assert(snap_view(rest@) =~= spec_parse_tasklist(text@));
        }
        rest
    } else {
        let field = csv_field_of(line);
        let name = lowercase(field);
        let mut r: Vec<String> = Vec::new();
        r.push(name);
        r.append(&mut rest);
        proof {
            assert(snap_view(r@) =~= spec_parse_tasklist(text@));
        }
        r
    }
}

/// Parse plain process-listing output (as produced by the POSIX listing
/// command) into lower-cased process names, dropping blank lines.
pub fn parse_ps_output(text: &str) -> (r: Vec<String>)
    ensures
        snap_view(r@) == spec_parse_ps(text@),
    decreases text@.len(),
{
    let l = text.unicode_len();
    if l == 0 {
        let r: Vec<String> = Vec::new();
        proof {
            assert(snap_view(r@) =~= spec_parse_ps(text@));
        }
        return r;
    }
    let nl = find_newline(text);
    let line = text.substring_char(0, nl);
    proof {
        assert(line@ =~= text@.take(find_nl(text@)));
    }
    let mut rest: Vec<String> = if nl < l {
        let tail = text.substring_char(nl + 1, l);
        proof {
            assert(tail@ =~= text@.skip(find_nl(text@) + 1));
        }
        parse_ps_output(tail)
    } else {
        Vec::new()
    };
    let name = lowercase(trim_str(line));
    if name.as_str().is_empty() {
        proof {
            assert(snap_view(rest@) =~= spec_parse_ps(text@));
        }
        rest
    } else {
        let mut r: Vec<String> = Vec::new();
        r.push(name);
        r.append(&mut rest);
        proof {
            assert(snap_view(r@) =~= spec_parse_ps(text@));
        }
        r
    }
}

} // verus!
