//! Historical decomposition: argument vector and defaults.

use vstd::prelude::*;
use crate::args::{ArgBuf, bayes_group, flag_s, nonempty_s, opt_u, with_format};

verus! {

pub struct HdComputeParams {
    pub data: String,
    pub lags: Option<u32>,
    pub id: String,
    pub bayesian: bool,
    pub config: String,
    pub draws: u32,
    pub sampler: String,
}

pub fn default_id() -> (r: String)
    ensures
        r@ == "cholesky"@,
{
    String::from_str("cholesky")
}

pub fn default_draws() -> (r: u32)
    ensures
        r == 2000u32,
{
    2000
}

pub fn default_sampler() -> (r: String)
    ensures
        r@ == "nuts"@,
{
    String::from_str("nuts")
}

pub open spec fn hd_compute_toks(p: HdComputeParams) -> Seq<Seq<char>> {
    seq!["hd"@, "compute"@, p.data@] + flag_s("--id"@, p.id@) + opt_u("--lags"@, p.lags)
        + bayes_group(p.bayesian, p.draws, p.sampler@) + nonempty_s("--config"@, p.config@)
}

/// With every defaulted field at its default and the Bayesian toggle off,
/// the vector holds the identification flag at its default, nothing else,
/// and the machine-readable-output flag last.
pub proof fn lemma_hd_compute_defaults(p: HdComputeParams)
    requires
        p.lags is None,
        p.id@ == "cholesky"@,
        !p.bayesian,
        p.config@ == ""@,
    ensures
        with_format(hd_compute_toks(p)) == seq![
            "hd"@,
            "compute"@,
            p.data@,
            "--id"@,
            "cholesky"@,
            "--format=json"@,
        ],
{
    reveal_strlit("");
    assert(with_format(hd_compute_toks(p)) =~= seq![
        "hd"@,
        "compute"@,
        p.data@,
        "--id"@,
        "cholesky"@,
        "--format=json"@,
    ]);
}

impl HdComputeParams {
    pub fn args(&self) -> (r: Vec<String>)
        ensures
            r.deep_view() == hd_compute_toks(*self),
    {
        let mut b = ArgBuf::new();
        b.lit("hd");
        b.lit("compute");
        b.arg(&self.data);
        b.opt_str("--id", &self.id);
        b.opt_num_if("--lags", &self.lags);
        b.bayes(self.bayesian, self.draws, &self.sampler);
        b.opt_str_nonempty("--config", &self.config);
        let r = b.into_vec();
        proof {
            assert(r.deep_view() =~= hd_compute_toks(*self));
        }
        r
    }
}

} // verus!
