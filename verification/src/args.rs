//! Construction of engine argument vectors.
//!
//! Every operation turns its typed parameters into a flat, ordered list of
//! string tokens. The order is fixed per operation, defaulted scalar options
//! are always emitted, optional options are emitted only when present, and
//! an empty string in a path-like option means "absent". [`ArgBuf`] is the
//! single builder all operations share; each push method states exactly
//! which token views it appends.

use vstd::prelude::*;
use crate::digits::{dec_str, dec_u32, dec_u64};

verus! {

/// Token views appended for an always-emitted unsigned option.
pub open spec fn flag_u(name: Seq<char>, v: u32) -> Seq<Seq<char>> {
    seq![name, dec_str(v as nat)]
}

/// Token views appended for an always-emitted string option.
pub open spec fn flag_s(name: Seq<char>, v: Seq<char>) -> Seq<Seq<char>> {
    seq![name, v]
}

/// Token views appended for an optional unsigned option: nothing when absent.
pub open spec fn opt_u(name: Seq<char>, v: Option<u32>) -> Seq<Seq<char>> {
    match v {
        Option::Some(n) => flag_u(name, n),
        Option::None => seq![],
    }
}

/// Token views appended for an optional string option: nothing when absent.
pub open spec fn opt_s(name: Seq<char>, v: Option<Seq<char>>) -> Seq<Seq<char>> {
    match v {
        Option::Some(s) => flag_s(name, s),
        Option::None => seq![],
    }
}

/// The view of an optional string value.
pub open spec fn opt_view(v: Option<String>) -> Option<Seq<char>> {
    match v {
        Option::Some(s) => Option::Some(s@),
        Option::None => Option::None,
    }
}

/// Token views appended for a path-like option where the empty string means
/// "absent": the flag and the value appear only for a non-empty value.
pub open spec fn nonempty_s(name: Seq<char>, v: Seq<char>) -> Seq<Seq<char>> {
    if v.len() == 0 {
        seq![]
    } else {
        flag_s(name, v)
    }
}

/// Token views appended for the Bayesian toggle shared by the structural
/// analyses: when the toggle is on, the flag itself plus the sampler-draws
/// and sampler-name options; when off, nothing at all.
pub open spec fn bayes_group(bayesian: bool, draws: u32, sampler: Seq<char>) -> Seq<Seq<char>> {
    if bayesian {
        seq!["--bayesian"@] + flag_u("--draws"@, draws) + flag_s("--sampler"@, sampler)
    } else {
        Seq::<Seq<char>>::empty()
    }
}

/// The machine-readable-output flag appended as the final token of every
/// invocation, after the operation's own tokens.
pub open spec fn with_format(t: Seq<Seq<char>>) -> Seq<Seq<char>> {
    t.push("--format=json"@)
}

/// An option with a default is always emitted: its flag name and its
/// rendered value, adjacent, value directly after name.
pub proof fn lemma_flag_always_emitted(name: Seq<char>, v: u32)
    ensures
        flag_u(name, v).len() == 2,
        flag_u(name, v)[0] == name,
        flag_u(name, v)[1] == dec_str(v as nat),
{
}

/// An optional unsigned option contributes its flag name and value,
/// adjacent and value after name, exactly when a value is present, and not
/// a single token when absent.
pub proof fn lemma_opt_u_emission(name: Seq<char>, v: Option<u32>)
    ensures
        v matches Some(n) ==> opt_u(name, v) == seq![name, dec_str(n as nat)],
        v is None ==> opt_u(name, v) == Seq::<Seq<char>>::empty(),
{
    match v {
        Option::Some(n) => {
            assert(opt_u(name, v) =~= seq![name, dec_str(n as nat)]);
        },
        Option::None => {
            assert(opt_u(name, v) =~= Seq::<Seq<char>>::empty());
        },
    }
}

/// An optional string option contributes its flag name and value, adjacent
/// and value after name, exactly when a value is present.
pub proof fn lemma_opt_s_emission(name: Seq<char>, v: Option<Seq<char>>)
    ensures
        v matches Some(s) ==> opt_s(name, v) == seq![name, s],
        v is None ==> opt_s(name, v) == Seq::<Seq<char>>::empty(),
{
    match v {
        Option::Some(s) => {
            assert(opt_s(name, v) =~= seq![name, s]);
        },
        Option::None => {
            assert(opt_s(name, v) =~= Seq::<Seq<char>>::empty());
        },
    }
}

/// A path-like option treats the empty string exactly like an absent value:
/// no flag name and no empty-value token are ever emitted for it.
pub proof fn lemma_nonempty_s_emission(name: Seq<char>, v: Seq<char>)
    ensures
        v.len() > 0 ==> nonempty_s(name, v) == seq![name, v],
        v.len() == 0 ==> nonempty_s(name, v) == Seq::<Seq<char>>::empty(),
{
    if v.len() > 0 {
        assert(nonempty_s(name, v) =~= seq![name, v]);
    } else {
        assert(nonempty_s(name, v) =~= Seq::<Seq<char>>::empty());
    }
}

/// The Bayesian toggle emits the sampler-draws and sampler-name options
/// exactly when it is on, and not a single token when it is off.
pub proof fn lemma_bayes_emission(bayesian: bool, draws: u32, sampler: Seq<char>)
    ensures
        bayesian ==> bayes_group(bayesian, draws, sampler) == seq![
            "--bayesian"@,
            "--draws"@,
            dec_str(draws as nat),
            "--sampler"@,
            sampler,
        ],
        !bayesian ==> bayes_group(bayesian, draws, sampler) == Seq::<Seq<char>>::empty(),
{
    if bayesian {
        assert(bayes_group(bayesian, draws, sampler) =~= seq![
            "--bayesian"@,
            "--draws"@,
            dec_str(draws as nat),
            "--sampler"@,
            sampler,
        ]);
    } else {
        assert(bayes_group(bayesian, draws, sampler) =~= Seq::<Seq<char>>::empty());
    }
}

/// The machine-readable-output flag always stands last, after every token
/// of the operation, whatever the operation emitted.
pub proof fn lemma_format_flag_last(t: Seq<Seq<char>>)
    ensures
        with_format(t).len() == t.len() + 1,
        with_format(t).last() == "--format=json"@,
        forall|i: int| 0 <= i < t.len() ==> with_format(t)[i] == t[i],
{
}

/// An argument vector under construction.
pub struct ArgBuf {
    items: Vec<String>,
}

impl ArgBuf {
    /// The views of the tokens pushed so far, in order.
    pub closed spec fn toks(&self) -> Seq<Seq<char>> {
        self.items.deep_view()
    }

    pub fn new() -> (r: ArgBuf)
        ensures
            r.toks() == Seq::<Seq<char>>::empty(),
    {
        let r = ArgBuf { items: Vec::new() };
        proof {
            assert(r.toks() =~= Seq::<Seq<char>>::empty());
        }
        r
    }

    /// Append one literal token.
    pub fn lit(&mut self, tok: &str)
        ensures
            final(self).toks() == old(self).toks().push(tok@),
    {
        self.items.push(tok.to_owned());
        proof {
            assert(self.toks() =~= old(self).toks().push(tok@));
        }
    }

    /// Append one owned token, such as the dataset path.
    pub fn arg(&mut self, tok: &String)
        ensures
            final(self).toks() == old(self).toks().push(tok@),
    {
        self.items.push(tok.clone());
        proof {
            assert(self.toks() =~= old(self).toks().push(tok@));
        }
    }

    /// Append one token holding the decimal rendering of `v`.
    pub fn num(&mut self, v: u64)
        ensures
            final(self).toks() == old(self).toks().push(dec_str(v as nat)),
    {
        self.items.push(dec_u64(v));
        proof {
            assert(self.toks() =~= old(self).toks().push(dec_str(v as nat)));
        }
    }

    /// Append an always-emitted unsigned option: name, then value.
    pub fn opt_num(&mut self, name: &str, v: u32)
        ensures
            final(self).toks() == old(self).toks() + flag_u(name@, v),
    {
        self.lit(name);
        self.num(v as u64);
        proof {
            assert(self.toks() =~= old(self).toks() + flag_u(name@, v));
        }
    }

    /// Append an always-emitted string option: name, then value.
    pub fn opt_str(&mut self, name: &str, v: &String)
        ensures
            final(self).toks() == old(self).toks() + flag_s(name@, v@),
    {
        self.lit(name);
        self.arg(v);
        proof {
            assert(self.toks() =~= old(self).toks() + flag_s(name@, v@));
        }
    }

    /// Append an optional unsigned option; absence emits nothing.
    pub fn opt_num_if(&mut self, name: &str, v: &Option<u32>)
        ensures
            final(self).toks() == old(self).toks() + opt_u(name@, *v),
    {
        if let Some(n) = *v {
            self.opt_num(name, n);
        }
        proof {
            assert(self.toks() =~= old(self).toks() + opt_u(name@, *v));
        }
    }

    /// Append an optional string option; absence emits nothing.
    pub fn opt_str_if(&mut self, name: &str, v: &Option<String>)
        ensures
            final(self).toks() == old(self).toks() + opt_s(name@, opt_view(*v)),
    {
        if let Some(s) = v {
            self.opt_str(name, s);
        }
        proof {
            assert(self.toks() =~= old(self).toks() + opt_s(name@, opt_view(*v)));
        }
    }

    /// Append a path-like option only when its value is non-empty.
    pub fn opt_str_nonempty(&mut self, name: &str, v: &String)
        ensures
            final(self).toks() == old(self).toks() + nonempty_s(name@, v@),
    {
        if !v.as_str().is_empty() {
            self.opt_str(name, v);
        }
        proof {
            assert(self.toks() =~= old(self).toks() + nonempty_s(name@, v@));
        }
    }

    /// Append the Bayesian toggle together with its dependent options.
    pub fn bayes(&mut self, bayesian: bool, draws: u32, sampler: &String)
        ensures
            final(self).toks() == old(self).toks() + bayes_group(bayesian, draws, sampler@),
    {
        if bayesian {
            self.lit("--bayesian");
            self.opt_num("--draws", draws);
            self.opt_str("--sampler", sampler);
        }
        proof {
            assert(self.toks() =~= old(self).toks() + bayes_group(bayesian, draws, sampler@));
        }
    }

    /// The finished vector.
    pub fn into_vec(self) -> (r: Vec<String>)
        ensures
            r.deep_view() == self.toks(),
    {
        self.items
    }
}

/// The flag that asks the engine for machine-readable output.
pub fn format_flag() -> (r: &'static str)
    ensures
        r@ == "--format=json"@,
{
    "--format=json"
}

/// Append the machine-readable-output flag; it is always the last token.
pub fn finalize(args: Vec<String>) -> (r: Vec<String>)
    ensures
        r.deep_view() == with_format(args.deep_view()),
{
    let ghost before = args.deep_view();
    let mut v = args;
    v.push(format_flag().to_owned());
    proof {
        assert(v.deep_view() =~= with_format(before));
    }
    v
}

} // verus!
