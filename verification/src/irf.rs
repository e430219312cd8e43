//! Impulse-response computation: argument vector and defaults.
//!
//! The Bayesian toggle, when on, additionally emits the sampler-draws and
//! sampler-name options; when off, those options are omitted entirely.

use vstd::prelude::*;
use crate::args::{ArgBuf, bayes_group, flag_s, flag_u, nonempty_s, opt_u, with_format};

verus! {

pub struct IrfComputeParams {
    pub data: String,
    pub lags: Option<u32>,
    pub shock: u32,
    pub horizons: u32,
    /// cholesky | sign | narrative | longrun | arias
    pub id: String,
    /// none | bootstrap | theoretical
    pub ci: String,
    pub replications: u32,
    pub bayesian: bool,
    pub config: String,
    pub draws: u32,
    pub sampler: String,
}

pub fn default_shock() -> (r: u32)
    ensures
        r == 1u32,
{
    1
}

pub fn default_horizons() -> (r: u32)
    ensures
        r == 20u32,
{
    20
}

pub fn default_id() -> (r: String)
    ensures
        r@ == "cholesky"@,
{
    String::from_str("cholesky")
}

pub fn default_ci() -> (r: String)
    ensures
        r@ == "bootstrap"@,
{
    String::from_str("bootstrap")
}

pub fn default_replications() -> (r: u32)
    ensures
        r == 1000u32,
{
    1000
}

pub fn default_draws() -> (r: u32)
    ensures
        r == 2000u32,
{
    2000
}

pub fn default_sampler() -> (r: String)
    ensures
        r@ == "nuts"@,
{
    String::from_str("nuts")
}

pub open spec fn irf_compute_toks(p: IrfComputeParams) -> Seq<Seq<char>> {
    seq!["irf"@, "compute"@, p.data@] + flag_u("--shock"@, p.shock) + flag_u(
        "--horizons"@,
        p.horizons,
    ) + flag_s("--id"@, p.id@) + flag_s("--ci"@, p.ci@) + flag_u("--replications"@, p.replications)
        + opt_u("--lags"@, p.lags) + bayes_group(p.bayesian, p.draws, p.sampler@) + nonempty_s(
        "--config"@,
        p.config@,
    )
}

/// With every defaulted field at its default, the Bayesian toggle decides
/// the whole difference between the two vectors: off, not one
/// sampler-related token appears; on, the toggle flag and the
/// sampler-draws and sampler-name options appear, in that order, before
/// the machine-readable-output flag.
pub proof fn lemma_irf_compute_bayes_toggle(p: IrfComputeParams)
    requires
        p.lags is None,
        p.shock == 1u32,
        p.horizons == 20u32,
        p.id@ == "cholesky"@,
        p.ci@ == "bootstrap"@,
        p.replications == 1000u32,
        p.config@ == ""@,
        p.draws == 2000u32,
        p.sampler@ == "nuts"@,
    ensures
        !p.bayesian ==> with_format(irf_compute_toks(p)) == seq![
            "irf"@,
            "compute"@,
            p.data@,
            "--shock"@,
            "1"@,
            "--horizons"@,
            "20"@,
            "--id"@,
            "cholesky"@,
            "--ci"@,
            "bootstrap"@,
            "--replications"@,
            "1000"@,
            "--format=json"@,
        ],
        p.bayesian ==> with_format(irf_compute_toks(p)) == seq![
            "irf"@,
            "compute"@,
            p.data@,
            "--shock"@,
            "1"@,
            "--horizons"@,
            "20"@,
            "--id"@,
            "cholesky"@,
            "--ci"@,
            "bootstrap"@,
            "--replications"@,
            "1000"@,
            "--bayesian"@,
            "--draws"@,
            "2000"@,
            "--sampler"@,
            "nuts"@,
            "--format=json"@,
        ],
{
    crate::digits::lemma_dec_str_values();
    reveal_strlit("");
    reveal_strlit("1");
    reveal_strlit("20");
    reveal_strlit("1000");
    reveal_strlit("2000");
    assert("1"@ =~= seq!['1']);
    assert("20"@ =~= seq!['2', '0']);
    assert("1000"@ =~= seq!['1', '0', '0', '0']);
    assert("2000"@ =~= seq!['2', '0', '0', '0']);
    if p.bayesian {
        assert(with_format(irf_compute_toks(p)) =~= seq![
            "irf"@,
            "compute"@,
            p.data@,
            "--shock"@,
            "1"@,
            "--horizons"@,
            "20"@,
            "--id"@,
            "cholesky"@,
            "--ci"@,
            "bootstrap"@,
            "--replications"@,
            "1000"@,
            "--bayesian"@,
            "--draws"@,
            "2000"@,
            "--sampler"@,
            "nuts"@,
            "--format=json"@,
        ]);
    } else {
        assert(with_format(irf_compute_toks(p)) =~= seq![
            "irf"@,
            "compute"@,
            p.data@,
            "--shock"@,
            "1"@,
            "--horizons"@,
            "20"@,
            "--id"@,
            "cholesky"@,
            "--ci"@,
            "bootstrap"@,
            "--replications"@,
            "1000"@,
            "--format=json"@,
        ]);
    }
}

impl IrfComputeParams {
    pub fn args(&self) -> (r: Vec<String>)
        ensures
            r.deep_view() == irf_compute_toks(*self),
    {
        let mut b = ArgBuf::new();
        b.lit("irf");
        b.lit("compute");
        b.arg(&self.data);
        b.opt_num("--shock", self.shock);
        b.opt_num("--horizons", self.horizons);
        b.opt_str("--id", &self.id);
        b.opt_str("--ci", &self.ci);
        b.opt_num("--replications", self.replications);
        b.opt_num_if("--lags", &self.lags);
        b.bayes(self.bayesian, self.draws, &self.sampler);
        b.opt_str_nonempty("--config", &self.config);
        let r = b.into_vec();
        proof {
            assert(r.deep_view() =~= irf_compute_toks(*self));
        }
        r
    }
}

} // verus!
