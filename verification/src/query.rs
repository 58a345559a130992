use vstd::prelude::*;
use vstd::string::StrSliceExecFns;
use crate::state::QueryError;
use crate::strutil::seq_views;

verus! {

/// Is `c` a whitespace separator between tokens? The tool's output uses
/// spaces between flags and ends lines with a newline; tabs and carriage
/// returns separate as well.
pub open spec fn is_space(c: char) -> bool {
    c == ' ' || c == '\n' || c == '\t' || c == '\r'
}

/// The state of the whitespace tokenizer after reading a prefix of the input:
/// the finished tokens and the current, still-open run of non-whitespace
/// characters.
pub open spec fn tokens_state(s: Seq<char>) -> (Seq<Seq<char>>, Seq<char>)
    decreases s.len(),
{
    if s.len() == 0 {
        (Seq::<Seq<char>>::empty(), Seq::<char>::empty())
    } else {
        let prev = tokens_state(s.drop_last());
        let c = s.last();
        if is_space(c) {
            if prev.1.len() == 0 {
                prev
            } else {
                (prev.0.push(prev.1), Seq::<char>::empty())
            }
        } else {
            (prev.0, prev.1.push(c))
        }
    }
}

/// The whitespace-separated tokens of `s`: its maximal nonempty runs of
/// non-whitespace characters, in order.
pub open spec fn tokens_of(s: Seq<char>) -> Seq<Seq<char>> {
    let st = tokens_state(s);
    if st.1.len() == 0 {
        st.0
    } else {
        st.0.push(st.1)
    }
}

/// Splits a string on whitespace into its nonempty tokens.
pub fn tokenize(s: &str) -> (r: Vec<String>)
    ensures
        seq_views(r@) == tokens_of(s@),
{
    let n: usize = s.unicode_len();
    let mut toks: Vec<String> = Vec::new();
    let mut start: usize = 0;
    let mut i: usize = 0;
    while i < n
        invariant
            n == s@.len(),
            start <= i <= n,
            tokens_state(s@.take(i as int)).0 == seq_views(toks@),
            tokens_state(s@.take(i as int)).1 == s@.subrange(start as int, i as int),
        decreases n - i,
    {
        let ghost pre = s@.take(i as int);
        let c = s.get_char(i);
        if c == ' ' || c == '\n' || c == '\t' || c == '\r' {
            if start < i {
                let tok = s.substring_char(start, i).to_owned();
                assert(tok@ == tokens_state(pre).1);
                toks.push(tok);
            }
            start = i + 1;
        }
        proof {
            assert(s@.take(i + 1).drop_last() =~= pre);
            assert(s@.take(i + 1).last() == s@[i as int]);
            assert(seq_views(toks@) =~= tokens_state(s@.take(i + 1)).0);
            assert(tokens_state(s@.take(i + 1)).1 =~= s@.subrange(start as int, i + 1));
        }
        i += 1;
    }
    proof {
        assert(s@.take(n as int) =~= s@);
    }
    if start < n {
        let tok = s.substring_char(start, n).to_owned();
        toks.push(tok);
        proof {
            assert(seq_views(toks@) =~= tokens_of(s@));
        }
    }
    toks
}

/// Is `t` a library flag token, `-l` followed by the library name?
pub open spec fn is_lib_flag(t: Seq<char>) -> bool {
    t.len() >= 2 && t[0] == '-' && t[1] == 'l'
}

/// Is `t` a search-path flag token, `-L` followed by the directory?
pub open spec fn is_loc_flag(t: Seq<char>) -> bool {
    t.len() >= 2 && t[0] == '-' && t[1] == 'L'
}

/// The library names contributed by a token list, markers stripped, in order.
pub open spec fn lib_names(toks: Seq<Seq<char>>) -> Seq<Seq<char>>
    decreases toks.len(),
{
    if toks.len() == 0 {
        Seq::<Seq<char>>::empty()
    } else {
        let prev = lib_names(toks.drop_last());
        if is_lib_flag(toks.last()) {
            prev.push(toks.last().skip(2))
        } else {
            prev
        }
    }
}

/// The search directories contributed by a token list, markers stripped, in
/// encounter order, duplicates retained.
pub open spec fn loc_paths(toks: Seq<Seq<char>>) -> Seq<Seq<char>>
    decreases toks.len(),
{
    if toks.len() == 0 {
        Seq::<Seq<char>>::empty()
    } else {
        let prev = loc_paths(toks.drop_last());
        if is_loc_flag(toks.last()) {
            prev.push(toks.last().skip(2))
        } else {
            prev
        }
    }
}

/// Parses the metadata tool's standard output into the reported library names
/// and search directories. Tokens that are neither flag kind are ignored.
pub fn parse_tool_stdout(stdout: &str) -> (r: (Vec<String>, Vec<String>))
    ensures
        seq_views(r.0@) == lib_names(tokens_of(stdout@)),
        seq_views(r.1@) == loc_paths(tokens_of(stdout@)),
{
    let toks = tokenize(stdout);
    let mut libs: Vec<String> = Vec::new();
    let mut locs: Vec<String> = Vec::new();
    let mut i: usize = 0;
    while i < toks.len()
        invariant
            i <= toks@.len(),
            seq_views(toks@) == tokens_of(stdout@),
            seq_views(libs@) == lib_names(seq_views(toks@).take(i as int)),
            seq_views(locs@) == loc_paths(seq_views(toks@).take(i as int)),
        decreases toks@.len() - i,
    {
        let t = toks[i].as_str();
        let tlen: usize = t.unicode_len();
        if tlen >= 2 && t.get_char(0) == '-' {
            let c1 = t.get_char(1);
            if c1 == 'l' {
                let name = t.substring_char(2, tlen).to_owned();
                assert(name@ =~= t@.skip(2));
                libs.push(name);
            } else if c1 == 'L' {
                let path = t.substring_char(2, tlen).to_owned();
                assert(path@ =~= t@.skip(2));
                locs.push(path);
            }
        }
        proof {
            let all = seq_views(toks@);
            assert(all.take(i + 1).drop_last() =~= all.take(i as int));
            assert(all.take(i + 1).last() == toks@[i as int]@);
            assert(seq_views(libs@) =~= lib_names(all.take(i + 1)));
            assert(seq_views(locs@) =~= loc_paths(all.take(i + 1)));
        }
        i += 1;
    }
    proof {
        assert(seq_views(toks@).take(toks@.len() as int) =~= seq_views(toks@));
    }
    (libs, locs)
}

/// What one external tool run produced, as plain values: whether it exited
/// successfully, its exit code, and its captured output streams.
pub struct ToolOutput {
    /// True when the tool exited with status zero.
    pub success: bool,
    /// The tool's exit code.
    pub status: i32,
    /// Captured standard output.
    pub stdout: String,
    /// Captured standard error.
    pub stderr: String,
}

/// Interprets one tool run: on success, the parsed library names and search
/// directories; on a non-zero exit, an error carrying the exit code and both
/// captured streams verbatim, and no partial library list.
pub fn interpret_tool_output(out: ToolOutput) -> (r: Result<(Vec<String>, Vec<String>), QueryError>)
    ensures
        out.success ==> {
            &&& r is Ok
            &&& seq_views(r->Ok_0.0@) == lib_names(tokens_of(out.stdout@))
            &&& seq_views(r->Ok_0.1@) == loc_paths(tokens_of(out.stdout@))
        },
        !out.success ==> r == Err::<(Vec<String>, Vec<String>), QueryError>(
            QueryError::ToolExit { status: out.status, stdout: out.stdout, stderr: out.stderr },
        ),
{
    if out.success {
        Ok(parse_tool_stdout(out.stdout.as_str()))
    } else {
        Err(QueryError::ToolExit { status: out.status, stdout: out.stdout, stderr: out.stderr })
    }
}

} // verus!
