//! Forecast-error-variance decomposition: argument vector and defaults.

use vstd::prelude::*;
use crate::args::{ArgBuf, bayes_group, flag_s, flag_u, nonempty_s, opt_u, with_format};

verus! {

pub struct FevdComputeParams {
    pub data: String,
    pub lags: Option<u32>,
    pub horizons: u32,
    pub id: String,
    pub bayesian: bool,
    pub config: String,
    pub draws: u32,
    pub sampler: String,
}

pub fn default_horizons() -> (r: u32)
    ensures
        r == 20u32,
{
    20
}

pub fn default_id() -> (r: String)
    ensures
        r@ == "cholesky"@,
{
    String::from_str("cholesky")
}

pub fn default_draws() -> (r: u32)
    ensures
        r == 2000u32,
{
    2000
}

pub fn default_sampler() -> (r: String)
    ensures
        r@ == "nuts"@,
{
    String::from_str("nuts")
}

pub open spec fn fevd_compute_toks(p: FevdComputeParams) -> Seq<Seq<char>> {
    seq!["fevd"@, "compute"@, p.data@] + flag_u("--horizons"@, p.horizons) + flag_s("--id"@, p.id@)
        + opt_u("--lags"@, p.lags) + bayes_group(p.bayesian, p.draws, p.sampler@) + nonempty_s(
        "--config"@,
        p.config@,
    )
}

/// With every defaulted field at its default and the Bayesian toggle off,
/// the vector holds each defaulted flag at its default-stringified value,
/// in the fixed order, with the machine-readable-output flag last.
pub proof fn lemma_fevd_compute_defaults(p: FevdComputeParams)
    requires
        p.lags is None,
        p.horizons == 20u32,
        p.id@ == "cholesky"@,
        !p.bayesian,
        p.config@ == ""@,
    ensures
        with_format(fevd_compute_toks(p)) == seq![
            "fevd"@,
            "compute"@,
            p.data@,
            "--horizons"@,
            "20"@,
            "--id"@,
            "cholesky"@,
            "--format=json"@,
        ],
{
    crate::digits::lemma_dec_str_values();
    reveal_strlit("");
    reveal_strlit("20");
    assert("20"@ =~= seq!['2', '0']);
    assert(with_format(fevd_compute_toks(p)) =~= seq![
        "fevd"@,
        "compute"@,
        p.data@,
        "--horizons"@,
        "20"@,
        "--id"@,
        "cholesky"@,
        "--format=json"@,
    ]);
}

impl FevdComputeParams {
    pub fn args(&self) -> (r: Vec<String>)
        ensures
            r.deep_view() == fevd_compute_toks(*self),
    {
        let mut b = ArgBuf::new();
        b.lit("fevd");
        b.lit("compute");
        b.arg(&self.data);
        b.opt_num("--horizons", self.horizons);
        b.opt_str("--id", &self.id);
        b.opt_num_if("--lags", &self.lags);
        b.bayes(self.bayesian, self.draws, &self.sampler);
        b.opt_str_nonempty("--config", &self.config);
        let r = b.into_vec();
        proof {
            assert(r.deep_view() =~= fevd_compute_toks(*self));
        }
        r
    }
}

} // verus!
