//! Parsing manifest lines. A well-formed line is `id=host:port`; blank
//! lines, `#` comments, and lines without exactly one `=` are skipped.

use vstd::prelude::*;
use vstd::string::StrSliceExecFns;

verus! {

/// One expected flow, parsed verbatim from a manifest line: an opaque id
/// and the `host:port` endpoint it targets.
pub struct FlowRecord {
    pub id: String,
    pub endpoint_spec: String,
}

/// The characters that trimming removes from the ends of a line: the
/// Unicode white-space set.
pub open spec fn is_space_char(c: char) -> bool {
    let u = c as u32;
    ||| u == 0x09
    ||| u == 0x0A
    ||| u == 0x0B
    ||| u == 0x0C
    ||| u == 0x0D
    ||| u == 0x20
    ||| u == 0x85
    ||| u == 0xA0
    ||| u == 0x1680
    ||| (0x2000 <= u && u <= 0x200A)
    ||| u == 0x2028
    ||| u == 0x2029
    ||| u == 0x202F
    ||| u == 0x205F
    ||| u == 0x3000
}

fn is_space(c: char) -> (b: bool)
    ensures
        b == is_space_char(c),
{
    let u: u32 = c as u32;
    u == 0x09 || u == 0x0A || u == 0x0B || u == 0x0C || u == 0x0D || u == 0x20 || u == 0x85
        || u == 0xA0 || u == 0x1680 || (0x2000 <= u && u <= 0x200A) || u == 0x2028 || u == 0x2029
        || u == 0x202F || u == 0x205F || u == 0x3000
}

/// The line without its leading white space.
pub open spec fn spec_trim_start(s: Seq<char>) -> Seq<char>
    decreases s.len(),
{
    if s.len() > 0 && is_space_char(s[0]) {
        spec_trim_start(s.drop_first())
    } else {
        s
    }
}

/// The line without its trailing white space.
pub open spec fn spec_trim_end(s: Seq<char>) -> Seq<char>
    decreases s.len(),
{
    if s.len() > 0 && is_space_char(s.last()) {
        spec_trim_end(s.drop_last())
    } else {
        s
    }
}

/// The line without leading and trailing white space.
pub open spec fn spec_trim(s: Seq<char>) -> Seq<char> {
    spec_trim_end(spec_trim_start(s))
}

/// How many times `c` occurs in `s`.
pub open spec fn count_char(s: Seq<char>, c: char) -> nat
    decreases s.len(),
{
    if s.len() == 0 {
        0
    } else {
        count_char(s.drop_last(), c) + (if s.last() == c {
            1nat
        } else {
            0nat
        })
    }
}

/// The index of the first `=` in `s`; meaningful only when `s` holds one.
pub open spec fn eq_pos(s: Seq<char>) -> int
    decreases s.len(),
{
    if s.len() == 0 {
        0
    } else if s[0] == '=' {
        0
    } else {
        1 + eq_pos(s.drop_first())
    }
}

/// A trimmed line yields a flow record exactly when it is not a comment
/// and holds exactly one `=` separator.
pub open spec fn line_parses(s: Seq<char>) -> bool {
    let t = spec_trim(s);
    &&& !(t.len() > 0 && t[0] == '#')
    &&& count_char(t, '=') == 1
}

/// The id field of a line that parses: everything before the `=`.
pub open spec fn parsed_id(s: Seq<char>) -> Seq<char> {
    let t = spec_trim(s);
    t.subrange(0, eq_pos(t))
}

/// The endpoint field of a line that parses: everything after the `=`.
pub open spec fn parsed_endpoint(s: Seq<char>) -> Seq<char> {
    let t = spec_trim(s);
    t.subrange(eq_pos(t) + 1, t.len() as int)
}

proof fn lemma_eq_pos_of_first(s: Seq<char>, j: int)
    requires
        0 <= j < s.len(),
        s[j] == '=',
        forall|k: int| 0 <= k < j ==> s[k] != '=',
    ensures
        eq_pos(s) == j,
    decreases j,
{
    if j > 0 {
        lemma_eq_pos_of_first(s.drop_first(), j - 1);
    }
}

/// Parses one raw manifest line. Returns the flow record for a line of the
/// form `id=endpoint` (after trimming white space), and nothing for blank
/// lines, `#` comments, and lines without exactly one `=`.
pub fn parse_line(line: &str) -> (r: Option<FlowRecord>)
    ensures
        match r {
            Some(rec) => {
                &&& line_parses(line@)
                &&& rec.id@ == parsed_id(line@)
                &&& rec.endpoint_spec@ == parsed_endpoint(line@)
            },
            None => !line_parses(line@),
        },
{
    let mut t: &str = line;
    while t.unicode_len() > 0 && is_space(t.get_char(0))
        invariant
            spec_trim_start(line@) == spec_trim_start(t@),
        decreases t@.len(),
    {
        let n: usize = t.unicode_len();
        proof {
            assert(t@.subrange(1, n as int) =~= t@.drop_first());
        }
        t = t.substring_char(1, n);
    }
    proof {
        assert(t@ == spec_trim_start(line@));
    }
    let ghost started: Seq<char> = t@;
    while t.unicode_len() > 0 && is_space(t.get_char(t.unicode_len() - 1))
        invariant
            spec_trim_end(started) == spec_trim_end(t@),
        decreases t@.len(),
    {
        let n: usize = t.unicode_len();
        proof {
            assert(t@.subrange(0, n - 1) =~= t@.drop_last());
        }
        t = t.substring_char(0, n - 1);
    }
    proof {
        assert(t@ == spec_trim(line@));
    }

    let n: usize = t.unicode_len();
    if n > 0 && t.get_char(0) == '#' {
        return None;
    }

    let mut i: usize = 0;
    let mut cnt: usize = 0;
    let mut first: usize = 0;
    while i < n
        invariant
            i <= n,
            n as nat == t@.len(),
            cnt <= i,
            cnt as nat == count_char(t@.subrange(0, i as int), '='),
            cnt == 0 ==> (forall|k: int| 0 <= k < i ==> t@[k] != '='),
            cnt > 0 ==> first < i && t@[first as int] == '=' && (forall|k: int|
                0 <= k < first ==> t@[k] != '='),
        decreases n - i,
    {
        let c: char = t.get_char(i);
        if c == '=' {
            if cnt == 0 {
                first = i;
            }
            cnt = cnt + 1;
        }
        i = i + 1;
        proof {
            assert(t@.subrange(0, i as int).drop_last() =~= t@.subrange(0, i - 1));
        }
    }
    proof {
        assert(t@.subrange(0, n as int) =~= t@);
    }
    if cnt != 1 {
        return None;
    }
    proof {
        lemma_eq_pos_of_first(t@, first as int);
    }
    let id_part: &str = t.substring_char(0, first);
    let endpoint_part: &str = t.substring_char(first + 1, n);
    Some(FlowRecord { id: id_part.to_owned(), endpoint_spec: endpoint_part.to_owned() })
}

} // verus!
