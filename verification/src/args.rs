//! Parsing of the command-line token sequence into a [`Config`].
//!
//! The token sequence is modelled as a `Seq<Seq<char>>`.  Token 0 is the
//! program's own invocation name and is discarded; token 1 is mandatory and
//! becomes the primary file path.  From token 2 on, every token beginning
//! with `-` opens a named option bucket, and the non-`-` tokens that follow
//! it are that option's values; when an option occurs more than once, the
//! last occurrence wins.

use vstd::prelude::*;

use crate::config::{
    Config, ConfigModel, spec_default_comp_proc, spec_default_freq, spec_default_prog,
    spec_default_upl_proc,
};

verus! {

/// A token that opens an option bucket: non-empty and beginning with `-`.
pub open spec fn is_option_token(t: Seq<char>) -> bool {
    t.len() > 0 && t[0] == '-'
}

/// Whether the option `f` occurs among the option tokens (index 2 on).
pub open spec fn opt_present(toks: Seq<Seq<char>>, f: Seq<char>) -> bool {
    exists|i: int| 2 <= i < toks.len() && toks[i] == f
}

/// Index of the last occurrence of `f` among the option tokens, `-1` when
/// there is none.
pub open spec fn last_opt_idx(toks: Seq<Seq<char>>, f: Seq<char>) -> int
    decreases toks.len(),
{
    if toks.len() <= 2 {
        -1
    } else if toks[toks.len() - 1] == f {
        toks.len() - 1
    } else {
        last_opt_idx(toks.drop_last(), f)
    }
}

/// Index of the first option-shaped token at or after `i`, or the length of
/// the sequence when no further token is option-shaped: the end of the value
/// run that starts at `i`.
pub open spec fn bucket_end(toks: Seq<Seq<char>>, i: int) -> int
    decreases toks.len() - i,
{
    if i < 0 || i >= toks.len() {
        toks.len() as int
    } else if is_option_token(toks[i]) {
        i
    } else {
        bucket_end(toks, i + 1)
    }
}

/// The values of option `f`: the tokens after its last occurrence, up to the
/// next option token.  Meaningful only when the option is present.
pub open spec fn opt_values(toks: Seq<Seq<char>>, f: Seq<char>) -> Seq<Seq<char>> {
    toks.subrange(last_opt_idx(toks, f) + 1, bucket_end(toks, last_opt_idx(toks, f) + 1))
}

/// `last_opt_idx` finds the last occurrence exactly.
pub proof fn lemma_last_opt_idx(toks: Seq<Seq<char>>, f: Seq<char>)
    ensures
        opt_present(toks, f) <==> last_opt_idx(toks, f) >= 2,
        !opt_present(toks, f) ==> last_opt_idx(toks, f) == -1,
        opt_present(toks, f) ==> {
            let l = last_opt_idx(toks, f);
            &&& 2 <= l < toks.len()
            &&& toks[l] == f
            &&& forall|j: int| l < j < toks.len() ==> toks[j] != f
        },
    decreases toks.len(),
{
    if toks.len() <= 2 {
        assert(!opt_present(toks, f));
    } else if toks[toks.len() - 1] == f {
        assert(opt_present(toks, f));
    } else {
        let prefix = toks.drop_last();
        lemma_last_opt_idx(prefix, f);
        assert(forall|i: int| 2 <= i < prefix.len() ==> prefix[i] == toks[i]);
        if opt_present(toks, f) {
            let w = choose|i: int| 2 <= i < toks.len() && toks[i] == f;
            assert(w < toks.len() - 1);
            assert(prefix[w] == f);
            assert(opt_present(prefix, f));
        }
        if opt_present(prefix, f) {
            let w = choose|i: int| 2 <= i < prefix.len() && prefix[i] == f;
            assert(toks[w] == f);
            assert(opt_present(toks, f));
        }
    }
}

/// A witness that is the last occurrence of `f` pins `last_opt_idx` down.
pub proof fn lemma_last_opt_idx_unique(toks: Seq<Seq<char>>, f: Seq<char>, i: int)
    requires
        2 <= i < toks.len(),
        toks[i] == f,
        forall|j: int| i < j < toks.len() ==> toks[j] != f,
    ensures
        last_opt_idx(toks, f) == i,
{
    lemma_last_opt_idx(toks, f);
    assert(opt_present(toks, f));
    let l = last_opt_idx(toks, f);
    if l < i {
        assert(toks[i] == f);
    }
}

/// `bucket_end` is the first option-shaped token at or after `i`.
pub proof fn lemma_bucket_end(toks: Seq<Seq<char>>, i: int)
    requires
        0 <= i <= toks.len(),
    ensures
        i <= bucket_end(toks, i) <= toks.len(),
        forall|k: int| i <= k < bucket_end(toks, i) ==> !is_option_token(toks[k]),
        bucket_end(toks, i) < toks.len() ==> is_option_token(toks[bucket_end(toks, i)]),
    decreases toks.len() - i,
{
    if i < toks.len() && !is_option_token(toks[i]) {
        lemma_bucket_end(toks, i + 1);
    }
}

/// A position that closes a run of value tokens pins `bucket_end` down.
pub proof fn lemma_bucket_end_unique(toks: Seq<Seq<char>>, i: int, j: int)
    requires
        0 <= i <= j <= toks.len(),
        forall|k: int| i <= k < j ==> !is_option_token(toks[k]),
        j < toks.len() ==> is_option_token(toks[j]),
    ensures
        bucket_end(toks, i) == j,
{
    lemma_bucket_end(toks, i);
    let e = bucket_end(toks, i);
    if e < j {
        assert(!is_option_token(toks[e]));
    }
    if e > j {
        assert(!is_option_token(toks[j]));
    }
}

/// The token sequence parses without error: the file path is present, `-p`
/// carries at least two values, and `-c` and `-f` carry at least one each.
pub open spec fn parse_ok(toks: Seq<Seq<char>>) -> bool {
    &&& toks.len() >= 2
    &&& (opt_present(toks, "-p"@) ==> opt_values(toks, "-p"@).len() >= 2)
    &&& (opt_present(toks, "-c"@) ==> opt_values(toks, "-c"@).len() >= 1)
    &&& (opt_present(toks, "-f"@) ==> opt_values(toks, "-f"@).len() >= 1)
}

/// The configuration that a well-formed token sequence denotes.  `-p` sets
/// the upload processor from its second-to-last value and the compile
/// processor from its last; `-c` and `-f` take their last value; `-l` takes
/// all of its values in order; `-v` is presence alone.
pub open spec fn parsed_config(toks: Seq<Seq<char>>) -> ConfigModel {
    ConfigModel {
        file_path: toks[1],
        comp_proc: if opt_present(toks, "-p"@) {
            opt_values(toks, "-p"@).last()
        } else {
            spec_default_comp_proc()
        },
        upl_proc: if opt_present(toks, "-p"@) {
            opt_values(toks, "-p"@)[opt_values(toks, "-p"@).len() - 2]
        } else {
            spec_default_upl_proc()
        },
        freq: if opt_present(toks, "-f"@) {
            opt_values(toks, "-f"@).last()
        } else {
            spec_default_freq()
        },
        prog: if opt_present(toks, "-c"@) {
            opt_values(toks, "-c"@).last()
        } else {
            spec_default_prog()
        },
        linked: if opt_present(toks, "-l"@) {
            opt_values(toks, "-l"@)
        } else {
            Seq::empty()
        },
        verbose_output: opt_present(toks, "-v"@),
    }
}

/// Whether this token opens an option bucket.
fn starts_option(s: &String) -> (b: bool)
    ensures
        b == is_option_token(s@),
{
    let st: &str = s.as_str();
    if st.unicode_len() == 0 {
        false
    } else {
        st.get_char(0) == '-'
    }
}

/// Looks the option `flag` up among the tokens: `Some` with the values of
/// its last occurrence when it is present, `None` otherwise.
fn opt_lookup(args: &Vec<String>, flag: &str) -> (r: Option<Vec<String>>)
    requires
        args@.len() >= 2,
    ensures
        match r {
            Some(vals) => opt_present(args.deep_view(), flag@) && vals.deep_view()
                == opt_values(args.deep_view(), flag@),
            None => !opt_present(args.deep_view(), flag@),
        },
{
    let ghost toks = args.deep_view();
    let flag_string: String = flag.to_owned();
    let n = args.len();
    let mut i: usize = n;
    let mut found: bool = false;
    let mut fidx: usize = 0;
    while 2 < i && !found
        invariant
            2 <= n == toks.len() == args@.len(),
            found ==> 2 <= fidx < n,
            !found ==> 2 <= i <= n,
            toks == args.deep_view(),
            flag_string@ == flag@,
            !found ==> forall|j: int| i <= j < n ==> toks[j] != flag@,
            found ==> toks[fidx as int] == flag@,
            found ==> forall|j: int| fidx < j < n ==> toks[j] != flag@,
        decreases i,
    {
        i = i - 1;
        if args[i] == flag_string {
            found = true;
            fidx = i;
        }
    }
    if !found {
        assert(forall|j: int| 2 <= j < toks.len() ==> toks[j] != flag@);
        return None;
    }
    proof {
        lemma_last_opt_idx_unique(toks, flag@, fidx as int);
    }
    let mut vals: Vec<String> = Vec::new();
    let mut j: usize = fidx + 1;
    while j < n && !starts_option(&args[j])
        invariant
            2 <= fidx < n == toks.len() == args@.len(),
            fidx + 1 <= j <= n,
            toks == args.deep_view(),
            forall|k: int| fidx + 1 <= k < j ==> !is_option_token(toks[k]),
            vals@.len() == j - (fidx + 1),
            forall|k: int| 0 <= k < vals@.len() ==> vals@[k]@ == toks[fidx + 1 + k],
        decreases n - j,
    {
        vals.push(args[j].clone());
        j = j + 1;
    }
    proof {
        lemma_bucket_end_unique(toks, fidx + 1, j as int);
        assert(vals.deep_view() =~= toks.subrange(fidx + 1, j as int));
    }
    Some(vals)
}

impl Config {
    /// Parses the token sequence into a configuration.  Token 0 is the
    /// invocation name, token 1 the mandatory file path; the remaining
    /// tokens are grouped into option buckets.  Returns the parsed
    /// configuration, or the message of the first arity violation in the
    /// order file path, `-p`, `-c`, `-f`.
    pub fn from_args(args: Vec<String>) -> (r: Result<Config, &'static str>)
        ensures
            ({
                let toks = args.deep_view();
                match r {
                    Ok(c) => parse_ok(toks) && c@ == parsed_config(toks),
                    Err(m) => !parse_ok(toks) && m@ == parse_err_msg(toks),
                }
            }),
    {
        let ghost toks = args.deep_view();
        if args.len() < 2 {
            return Err("no file path argument");
        }
        let file_path = args[1].clone();

        let comp_proc: String;
        let upl_proc: String;
        match opt_lookup(&args, "-p") {
            Some(vals) => {
                if vals.len() < 2 {
                    proof {
                        assert(opt_values(toks, "-p"@).len() == vals.deep_view().len());
                    }
                    return Err("-p expects two arguments [compilation processor] [upload processor]");
                }
                proof {
                    assert(vals.deep_view()[vals@.len() - 1] == vals@[vals@.len() - 1]@);
                    assert(vals.deep_view()[vals@.len() - 2] == vals@[vals@.len() - 2]@);
                }
                comp_proc = vals[vals.len() - 1].clone();
                upl_proc = vals[vals.len() - 2].clone();
            },
            None => {
                comp_proc = crate::config::default_comp_proc().to_owned();
                upl_proc = crate::config::default_upl_proc().to_owned();
            },
        }

        let prog: String;
        match opt_lookup(&args, "-c") {
            Some(vals) => {
                if vals.len() < 1 {
                    proof {
                        assert(opt_values(toks, "-c"@).len() == vals.deep_view().len());
                    }
                    return Err("-c expects one argument [programmer]");
                }
                proof {
                    assert(vals.deep_view()[vals@.len() - 1] == vals@[vals@.len() - 1]@);
                }
                prog = vals[vals.len() - 1].clone();
            },
            None => {
                prog = crate::config::default_prog().to_owned();
            },
        }

        let freq: String;
        match opt_lookup(&args, "-f") {
            Some(vals) => {
                if vals.len() < 1 {
                    proof {
                        assert(opt_values(toks, "-f"@).len() == vals.deep_view().len());
                    }
                    return Err("-f expects one argument [frequency]");
                }
                proof {
                    assert(vals.deep_view()[vals@.len() - 1] == vals@[vals@.len() - 1]@);
                }
                freq = vals[vals.len() - 1].clone();
            },
            None => {
                freq = crate::config::default_freq().to_owned();
            },
        }

        let linked: Vec<String> = match opt_lookup(&args, "-l") {
            Some(vals) => vals,
            None => Vec::new(),
        };

        let verbose_output = opt_lookup(&args, "-v").is_some();

        let c = Config { file_path, comp_proc, upl_proc, freq, prog, linked, verbose_output };
        proof {
            assert(c@.linked =~= parsed_config(toks).linked);
            assert(c@ =~~= parsed_config(toks));
        }
        Ok(c)
    }
}

/// The message a malformed token sequence is rejected with; the checks are
/// made in the order file path, `-p`, `-c`, `-f`.
pub open spec fn parse_err_msg(toks: Seq<Seq<char>>) -> Seq<char> {
    if toks.len() < 2 {
        "no file path argument"@
    } else if opt_present(toks, "-p"@) && opt_values(toks, "-p"@).len() < 2 {
        "-p expects two arguments [compilation processor] [upload processor]"@
    } else if opt_present(toks, "-c"@) && opt_values(toks, "-c"@).len() < 1 {
        "-c expects one argument [programmer]"@
    } else {
        "-f expects one argument [frequency]"@
    }
}

/// A token sequence that supplies only the required file path parses
/// without error, and the configuration carries the four documented default
/// values, an empty linked-file list and verbosity off.
pub proof fn lemma_only_file_path_gives_defaults(toks: Seq<Seq<char>>)
    requires
        toks.len() == 2,
    ensures
        parse_ok(toks),
        parsed_config(toks) == (ConfigModel {
            file_path: toks[1],
            comp_proc: spec_default_comp_proc(),
            upl_proc: spec_default_upl_proc(),
            freq: spec_default_freq(),
            prog: spec_default_prog(),
            linked: Seq::empty(),
            verbose_output: false,
        }),
{
    assert(!opt_present(toks, "-p"@));
    assert(!opt_present(toks, "-c"@));
    assert(!opt_present(toks, "-f"@));
    assert(!opt_present(toks, "-l"@));
    assert(!opt_present(toks, "-v"@));
    assert(parsed_config(toks) =~~= ConfigModel {
        file_path: toks[1],
        comp_proc: spec_default_comp_proc(),
        upl_proc: spec_default_upl_proc(),
        freq: spec_default_freq(),
        prog: spec_default_prog(),
        linked: Seq::empty(),
        verbose_output: false,
    });
}

/// When `-p` carries exactly the two values `a` then `b`, the parsed
/// configuration takes the upload processor from the first and the compile
/// processor from the second: the reversal of their declaration order.
pub proof fn lemma_p_values_reversed(toks: Seq<Seq<char>>, a: Seq<char>, b: Seq<char>)
    requires
        opt_present(toks, "-p"@),
        opt_values(toks, "-p"@) == seq![a, b],
    ensures
        parsed_config(toks).upl_proc == a,
        parsed_config(toks).comp_proc == b,
{
    assert(opt_values(toks, "-p"@).len() == 2);
    assert(opt_values(toks, "-p"@)[0] == a);
    assert(opt_values(toks, "-p"@)[1] == b);
}

/// Supplying `-l` with zero following values, on a token sequence that is
/// otherwise well formed, is not an error: the parse succeeds and the
/// linked-file list is empty.
pub proof fn lemma_empty_link_list_allowed(toks: Seq<Seq<char>>)
    requires
        toks.len() >= 2,
        opt_present(toks, "-p"@) ==> opt_values(toks, "-p"@).len() >= 2,
        opt_present(toks, "-c"@) ==> opt_values(toks, "-c"@).len() >= 1,
        opt_present(toks, "-f"@) ==> opt_values(toks, "-f"@).len() >= 1,
        opt_present(toks, "-l"@),
        opt_values(toks, "-l"@).len() == 0,
    ensures
        parse_ok(toks),
        parsed_config(toks).linked == Seq::<Seq<char>>::empty(),
{
    assert(parsed_config(toks).linked =~= Seq::<Seq<char>>::empty());
}

} // verus!
