//! Bayesian VAR operations: argument vectors and defaults.

use vstd::prelude::*;
use crate::args::{ArgBuf, flag_s, flag_u, nonempty_s, opt_u, with_format};

verus! {

pub struct BvarEstimateParams {
    pub data: String,
    pub lags: u32,
    pub prior: String,
    pub draws: u32,
    pub sampler: String,
    pub config: String,
}

pub struct BvarPosteriorParams {
    pub data: String,
    pub lags: u32,
    pub draws: u32,
    pub sampler: String,
    pub method: String,
    pub config: String,
}

pub struct BvarIrfParams {
    pub data: String,
    pub lags: Option<u32>,
    pub shock: u32,
    pub horizons: u32,
    pub id: String,
    pub draws: u32,
    pub sampler: String,
    pub config: String,
}

pub struct BvarFevdParams {
    pub data: String,
    pub lags: Option<u32>,
    pub horizons: u32,
    pub id: String,
    pub draws: u32,
    pub sampler: String,
    pub config: String,
}

pub struct BvarHdParams {
    pub data: String,
    pub lags: Option<u32>,
    pub id: String,
    pub draws: u32,
    pub sampler: String,
    pub config: String,
}

pub struct BvarForecastParams {
    pub data: String,
    pub lags: Option<u32>,
    pub horizons: u32,
    pub draws: u32,
    pub sampler: String,
    pub config: String,
}

pub fn default_lags() -> (r: u32)
    ensures
        r == 4u32,
{
    4
}

pub fn default_prior() -> (r: String)
    ensures
        r@ == "minnesota"@,
{
    String::from_str("minnesota")
}

pub fn default_draws() -> (r: u32)
    ensures
        r == 2000u32,
{
    2000
}

pub fn default_sampler() -> (r: String)
    ensures
        r@ == "nuts"@,
{
    String::from_str("nuts")
}

pub fn default_method() -> (r: String)
    ensures
        r@ == "mean"@,
{
    String::from_str("mean")
}

pub fn default_shock() -> (r: u32)
    ensures
        r == 1u32,
{
    1
}

pub fn default_horizons() -> (r: u32)
    ensures
        r == 20u32,
{
    20
}

pub fn default_id() -> (r: String)
    ensures
        r@ == "cholesky"@,
{
    String::from_str("cholesky")
}

pub open spec fn bvar_estimate_toks(p: BvarEstimateParams) -> Seq<Seq<char>> {
    seq!["bvar"@, "estimate"@, p.data@] + flag_u("--lags"@, p.lags) + flag_s("--prior"@, p.prior@)
        + flag_u("--draws"@, p.draws) + flag_s("--sampler"@, p.sampler@) + nonempty_s(
        "--config"@,
        p.config@,
    )
}

/// With every defaulted field at its default and no configuration path,
/// estimation's vector holds each defaulted flag at its default-stringified
/// value, in the fixed order, with the machine-readable-output flag last.
pub proof fn lemma_bvar_estimate_defaults(p: BvarEstimateParams)
    requires
        p.lags == 4u32,
        p.prior@ == "minnesota"@,
        p.draws == 2000u32,
        p.sampler@ == "nuts"@,
        p.config@ == ""@,
    ensures
        with_format(bvar_estimate_toks(p)) == seq![
            "bvar"@,
            "estimate"@,
            p.data@,
            "--lags"@,
            "4"@,
            "--prior"@,
            "minnesota"@,
            "--draws"@,
            "2000"@,
            "--sampler"@,
            "nuts"@,
            "--format=json"@,
        ],
{
    crate::digits::lemma_dec_str_values();
    reveal_strlit("");
    reveal_strlit("4");
    reveal_strlit("2000");
    assert("4"@ =~= seq!['4']);
    assert("2000"@ =~= seq!['2', '0', '0', '0']);
    assert(with_format(bvar_estimate_toks(p)) =~= seq![
        "bvar"@,
        "estimate"@,
        p.data@,
        "--lags"@,
        "4"@,
        "--prior"@,
        "minnesota"@,
        "--draws"@,
        "2000"@,
        "--sampler"@,
        "nuts"@,
        "--format=json"@,
    ]);
}

impl BvarEstimateParams {
    pub fn args(&self) -> (r: Vec<String>)
        ensures
            r.deep_view() == bvar_estimate_toks(*self),
    {
        let mut b = ArgBuf::new();
        b.lit("bvar");
        b.lit("estimate");
        b.arg(&self.data);
        b.opt_num("--lags", self.lags);
        b.opt_str("--prior", &self.prior);
        b.opt_num("--draws", self.draws);
        b.opt_str("--sampler", &self.sampler);
        b.opt_str_nonempty("--config", &self.config);
        let r = b.into_vec();
        proof {
            assert(r.deep_view() =~= bvar_estimate_toks(*self));
        }
        r
    }
}

pub open spec fn bvar_posterior_toks(p: BvarPosteriorParams) -> Seq<Seq<char>> {
    seq!["bvar"@, "posterior"@, p.data@] + flag_u("--lags"@, p.lags) + flag_u("--draws"@, p.draws)
        + flag_s("--sampler"@, p.sampler@) + flag_s("--method"@, p.method@) + nonempty_s(
        "--config"@,
        p.config@,
    )
}

impl BvarPosteriorParams {
    pub fn args(&self) -> (r: Vec<String>)
        ensures
            r.deep_view() == bvar_posterior_toks(*self),
    {
        let mut b = ArgBuf::new();
        b.lit("bvar");
        b.lit("posterior");
        b.arg(&self.data);
        b.opt_num("--lags", self.lags);
        b.opt_num("--draws", self.draws);
        b.opt_str("--sampler", &self.sampler);
        b.opt_str("--method", &self.method);
        b.opt_str_nonempty("--config", &self.config);
        let r = b.into_vec();
        proof {
            assert(r.deep_view() =~= bvar_posterior_toks(*self));
        }
        r
    }
}

pub open spec fn bvar_irf_toks(p: BvarIrfParams) -> Seq<Seq<char>> {
    seq!["bvar"@, "irf"@, p.data@] + flag_u("--shock"@, p.shock) + flag_u("--horizons"@, p.horizons)
        + flag_s("--id"@, p.id@) + flag_u("--draws"@, p.draws) + flag_s("--sampler"@, p.sampler@)
        + opt_u("--lags"@, p.lags) + nonempty_s("--config"@, p.config@)
}

impl BvarIrfParams {
    pub fn args(&self) -> (r: Vec<String>)
        ensures
            r.deep_view() == bvar_irf_toks(*self),
    {
        let mut b = ArgBuf::new();
        b.lit("bvar");
        b.lit("irf");
        b.arg(&self.data);
        b.opt_num("--shock", self.shock);
        b.opt_num("--horizons", self.horizons);
        b.opt_str("--id", &self.id);
        b.opt_num("--draws", self.draws);
        b.opt_str("--sampler", &self.sampler);
        b.opt_num_if("--lags", &self.lags);
        b.opt_str_nonempty("--config", &self.config);
        let r = b.into_vec();
        proof {
            assert(r.deep_view() =~= bvar_irf_toks(*self));
        }
        r
    }
}

pub open spec fn bvar_fevd_toks(p: BvarFevdParams) -> Seq<Seq<char>> {
    seq!["bvar"@, "fevd"@, p.data@] + flag_u("--horizons"@, p.horizons) + flag_s("--id"@, p.id@)
        + flag_u("--draws"@, p.draws) + flag_s("--sampler"@, p.sampler@) + opt_u("--lags"@, p.lags)
        + nonempty_s("--config"@, p.config@)
}

impl BvarFevdParams {
    pub fn args(&self) -> (r: Vec<String>)
        ensures
            r.deep_view() == bvar_fevd_toks(*self),
    {
        let mut b = ArgBuf::new();
        b.lit("bvar");
        b.lit("fevd");
        b.arg(&self.data);
        b.opt_num("--horizons", self.horizons);
        b.opt_str("--id", &self.id);
        b.opt_num("--draws", self.draws);
        b.opt_str("--sampler", &self.sampler);
        b.opt_num_if("--lags", &self.lags);
        b.opt_str_nonempty("--config", &self.config);
        let r = b.into_vec();
        proof {
            assert(r.deep_view() =~= bvar_fevd_toks(*self));
        }
        r
    }
}

pub open spec fn bvar_hd_toks(p: BvarHdParams) -> Seq<Seq<char>> {
    seq!["bvar"@, "hd"@, p.data@] + flag_s("--id"@, p.id@) + flag_u("--draws"@, p.draws) + flag_s(
        "--sampler"@,
        p.sampler@,
    ) + opt_u("--lags"@, p.lags) + nonempty_s("--config"@, p.config@)
}

impl BvarHdParams {
    pub fn args(&self) -> (r: Vec<String>)
        ensures
            r.deep_view() == bvar_hd_toks(*self),
    {
        let mut b = ArgBuf::new();
        b.lit("bvar");
        b.lit("hd");
        b.arg(&self.data);
        b.opt_str("--id", &self.id);
        b.opt_num("--draws", self.draws);
        b.opt_str("--sampler", &self.sampler);
        b.opt_num_if("--lags", &self.lags);
        b.opt_str_nonempty("--config", &self.config);
        let r = b.into_vec();
        proof {
            assert(r.deep_view() =~= bvar_hd_toks(*self));
        }
        r
    }
}

pub open spec fn bvar_forecast_toks(p: BvarForecastParams) -> Seq<Seq<char>> {
    seq!["bvar"@, "forecast"@, p.data@] + flag_u("--horizons"@, p.horizons) + flag_u(
        "--draws"@,
        p.draws,
    ) + flag_s("--sampler"@, p.sampler@) + opt_u("--lags"@, p.lags) + nonempty_s(
        "--config"@,
        p.config@,
    )
}

impl BvarForecastParams {
    pub fn args(&self) -> (r: Vec<String>)
        ensures
            r.deep_view() == bvar_forecast_toks(*self),
    {
        let mut b = ArgBuf::new();
        b.lit("bvar");
        b.lit("forecast");
        b.arg(&self.data);
        b.opt_num("--horizons", self.horizons);
        b.opt_num("--draws", self.draws);
        b.opt_str("--sampler", &self.sampler);
        b.opt_num_if("--lags", &self.lags);
        b.opt_str_nonempty("--config", &self.config);
        let r = b.into_vec();
        proof {
            assert(r.deep_view() =~= bvar_forecast_toks(*self));
        }
        r
    }
}

} // verus!
