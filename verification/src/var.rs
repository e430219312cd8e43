//! Vector-autoregression operations: argument vectors and defaults.

use vstd::prelude::*;
use crate::args::{ArgBuf, flag_s, flag_u, nonempty_s, opt_u, with_format};

verus! {

pub struct VarEstimateParams {
    pub data: String,
    pub lags: Option<u32>,
    pub trend: String,
}

pub struct VarLagSelectParams {
    pub data: String,
    pub max_lags: u32,
    pub criterion: String,
}

pub struct VarStabilityParams {
    pub data: String,
    pub lags: Option<u32>,
}

pub struct VarIrfParams {
    pub data: String,
    pub lags: Option<u32>,
    pub shock: u32,
    pub horizons: u32,
    pub id: String,
    pub ci: String,
    pub replications: u32,
    pub config: String,
}

pub struct VarFevdParams {
    pub data: String,
    pub lags: Option<u32>,
    pub horizons: u32,
    pub id: String,
    pub config: String,
}

pub struct VarHdParams {
    pub data: String,
    pub lags: Option<u32>,
    pub id: String,
    pub config: String,
}

pub struct VarForecastParams {
    pub data: String,
    pub lags: Option<u32>,
    pub horizons: u32,
    /// Confidence level, already rendered as a locale-independent decimal
    /// string; the boundary layer renders the numeric value it received.
    pub confidence: String,
}

pub fn default_trend() -> (r: String)
    ensures
        r@ == "constant"@,
{
    String::from_str("constant")
}

pub fn default_max_lags() -> (r: u32)
    ensures
        r == 12u32,
{
    12
}

pub fn default_criterion() -> (r: String)
    ensures
        r@ == "aic"@,
{
    String::from_str("aic")
}

pub fn default_shock() -> (r: u32)
    ensures
        r == 1u32,
{
    1
}

pub fn default_horizons() -> (r: u32)
    ensures
        r == 20u32,
{
    20
}

pub fn default_id() -> (r: String)
    ensures
        r@ == "cholesky"@,
{
    String::from_str("cholesky")
}

pub fn default_ci() -> (r: String)
    ensures
        r@ == "bootstrap"@,
{
    String::from_str("bootstrap")
}

pub fn default_replications() -> (r: u32)
    ensures
        r == 1000u32,
{
    1000
}

pub fn default_confidence() -> (r: String)
    ensures
        r@ == "0.95"@,
{
    String::from_str("0.95")
}

pub open spec fn var_estimate_toks(p: VarEstimateParams) -> Seq<Seq<char>> {
    seq!["var"@, "estimate"@, p.data@] + opt_u("--lags"@, p.lags) + flag_s("--trend"@, p.trend@)
}

impl VarEstimateParams {
    pub fn args(&self) -> (r: Vec<String>)
        ensures
            r.deep_view() == var_estimate_toks(*self),
    {
        let mut b = ArgBuf::new();
        b.lit("var");
        b.lit("estimate");
        b.arg(&self.data);
        b.opt_num_if("--lags", &self.lags);
        b.opt_str("--trend", &self.trend);
        let r = b.into_vec();
        proof {
            assert(r.deep_view() =~= var_estimate_toks(*self));
        }
        r
    }
}

/// With every defaulted field at its default, estimation's vector holds the
/// positional dataset path and each defaulted flag at its default value, in
/// the fixed order, with the machine-readable-output flag last; the absent
/// lag order contributes nothing.
pub proof fn lemma_var_estimate_defaults(p: VarEstimateParams)
    requires
        p.lags is None,
        p.trend@ == "constant"@,
    ensures
        with_format(var_estimate_toks(p)) == seq![
            "var"@,
            "estimate"@,
            p.data@,
            "--trend"@,
            "constant"@,
            "--format=json"@,
        ],
{
    assert(with_format(var_estimate_toks(p)) =~= seq![
        "var"@,
        "estimate"@,
        p.data@,
        "--trend"@,
        "constant"@,
        "--format=json"@,
    ]);
}

/// With every defaulted field at its default, the impulse-response vector
/// holds every defaulted flag at its default-stringified value, in the
/// fixed order, with the machine-readable-output flag last.
pub proof fn lemma_var_irf_defaults(p: VarIrfParams)
    requires
        p.lags is None,
        p.shock == 1u32,
        p.horizons == 20u32,
        p.id@ == "cholesky"@,
        p.ci@ == "bootstrap"@,
        p.replications == 1000u32,
        p.config@ == ""@,
    ensures
        with_format(var_irf_toks(p)) == seq![
            "var"@,
            "irf"@,
            p.data@,
            "--shock"@,
            "1"@,
            "--horizons"@,
            "20"@,
            "--id"@,
            "cholesky"@,
            "--ci"@,
            "bootstrap"@,
            "--replications"@,
            "1000"@,
            "--format=json"@,
        ],
{
    crate::digits::lemma_dec_str_values();
    reveal_strlit("");
    reveal_strlit("1");
    reveal_strlit("20");
    reveal_strlit("1000");
    assert("1"@ =~= seq!['1']);
    assert("20"@ =~= seq!['2', '0']);
    assert("1000"@ =~= seq!['1', '0', '0', '0']);
    assert(with_format(var_irf_toks(p)) =~= seq![
        "var"@,
        "irf"@,
        p.data@,
        "--shock"@,
        "1"@,
        "--horizons"@,
        "20"@,
        "--id"@,
        "cholesky"@,
        "--ci"@,
        "bootstrap"@,
        "--replications"@,
        "1000"@,
        "--format=json"@,
    ]);
}

pub open spec fn var_lagselect_toks(p: VarLagSelectParams) -> Seq<Seq<char>> {
    seq!["var"@, "lagselect"@, p.data@] + flag_u("--max-lags"@, p.max_lags) + flag_s(
        "--criterion"@,
        p.criterion@,
    )
}

/// With every defaulted field at its default, lag selection's vector holds
/// both defaulted flags at their default-stringified values, in the fixed
/// order, with the machine-readable-output flag last.
pub proof fn lemma_var_lagselect_defaults(p: VarLagSelectParams)
    requires
        p.max_lags == 12u32,
        p.criterion@ == "aic"@,
    ensures
        with_format(var_lagselect_toks(p)) == seq![
            "var"@,
            "lagselect"@,
            p.data@,
            "--max-lags"@,
            "12"@,
            "--criterion"@,
            "aic"@,
            "--format=json"@,
        ],
{
    crate::digits::lemma_dec_str_values();
    reveal_strlit("12");
    assert("12"@ =~= seq!['1', '2']);
    assert(with_format(var_lagselect_toks(p)) =~= seq![
        "var"@,
        "lagselect"@,
        p.data@,
        "--max-lags"@,
        "12"@,
        "--criterion"@,
        "aic"@,
        "--format=json"@,
    ]);
}

impl VarLagSelectParams {
    pub fn args(&self) -> (r: Vec<String>)
        ensures
            r.deep_view() == var_lagselect_toks(*self),
    {
        let mut b = ArgBuf::new();
        b.lit("var");
        b.lit("lagselect");
        b.arg(&self.data);
        b.opt_num("--max-lags", self.max_lags);
        b.opt_str("--criterion", &self.criterion);
        let r = b.into_vec();
        proof {
            assert(r.deep_view() =~= var_lagselect_toks(*self));
        }
        r
    }
}

pub open spec fn var_stability_toks(p: VarStabilityParams) -> Seq<Seq<char>> {
    seq!["var"@, "stability"@, p.data@] + opt_u("--lags"@, p.lags)
}

impl VarStabilityParams {
    pub fn args(&self) -> (r: Vec<String>)
        ensures
            r.deep_view() == var_stability_toks(*self),
    {
        let mut b = ArgBuf::new();
        b.lit("var");
        b.lit("stability");
        b.arg(&self.data);
        b.opt_num_if("--lags", &self.lags);
        let r = b.into_vec();
        proof {
            assert(r.deep_view() =~= var_stability_toks(*self));
        }
        r
    }
}

pub open spec fn var_irf_toks(p: VarIrfParams) -> Seq<Seq<char>> {
    seq!["var"@, "irf"@, p.data@] + flag_u("--shock"@, p.shock) + flag_u("--horizons"@, p.horizons)
        + flag_s("--id"@, p.id@) + flag_s("--ci"@, p.ci@) + flag_u(
        "--replications"@,
        p.replications,
    ) + opt_u("--lags"@, p.lags) + nonempty_s("--config"@, p.config@)
}

impl VarIrfParams {
    pub fn args(&self) -> (r: Vec<String>)
        ensures
            r.deep_view() == var_irf_toks(*self),
    {
        let mut b = ArgBuf::new();
        b.lit("var");
        b.lit("irf");
        b.arg(&self.data);
        b.opt_num("--shock", self.shock);
        b.opt_num("--horizons", self.horizons);
        b.opt_str("--id", &self.id);
        b.opt_str("--ci", &self.ci);
        b.opt_num("--replications", self.replications);
        b.opt_num_if("--lags", &self.lags);
        b.opt_str_nonempty("--config", &self.config);
        let r = b.into_vec();
        proof {
            assert(r.deep_view() =~= var_irf_toks(*self));
        }
        r
    }
}

pub open spec fn var_fevd_toks(p: VarFevdParams) -> Seq<Seq<char>> {
    seq!["var"@, "fevd"@, p.data@] + flag_u("--horizons"@, p.horizons) + flag_s("--id"@, p.id@)
        + opt_u("--lags"@, p.lags) + nonempty_s("--config"@, p.config@)
}

impl VarFevdParams {
    pub fn args(&self) -> (r: Vec<String>)
        ensures
            r.deep_view() == var_fevd_toks(*self),
    {
        let mut b = ArgBuf::new();
        b.lit("var");
        b.lit("fevd");
        b.arg(&self.data);
        b.opt_num("--horizons", self.horizons);
        b.opt_str("--id", &self.id);
        b.opt_num_if("--lags", &self.lags);
        b.opt_str_nonempty("--config", &self.config);
        let r = b.into_vec();
        proof {
            assert(r.deep_view() =~= var_fevd_toks(*self));
        }
        r
    }
}

pub open spec fn var_hd_toks(p: VarHdParams) -> Seq<Seq<char>> {
    seq!["var"@, "hd"@, p.data@] + flag_s("--id"@, p.id@) + opt_u("--lags"@, p.lags) + nonempty_s(
        "--config"@,
        p.config@,
    )
}

impl VarHdParams {
    pub fn args(&self) -> (r: Vec<String>)
        ensures
            r.deep_view() == var_hd_toks(*self),
    {
        let mut b = ArgBuf::new();
        b.lit("var");
        b.lit("hd");
        b.arg(&self.data);
        b.opt_str("--id", &self.id);
        b.opt_num_if("--lags", &self.lags);
        b.opt_str_nonempty("--config", &self.config);
        let r = b.into_vec();
        proof {
            assert(r.deep_view() =~= var_hd_toks(*self));
        }
        r
    }
}

pub open spec fn var_forecast_toks(p: VarForecastParams) -> Seq<Seq<char>> {
    seq!["var"@, "forecast"@, p.data@] + flag_u("--horizons"@, p.horizons) + flag_s(
        "--confidence"@,
        p.confidence@,
    ) + opt_u("--lags"@, p.lags)
}

impl VarForecastParams {
    pub fn args(&self) -> (r: Vec<String>)
        ensures
            r.deep_view() == var_forecast_toks(*self),
    {
        let mut b = ArgBuf::new();
        b.lit("var");
        b.lit("forecast");
        b.arg(&self.data);
        b.opt_num("--horizons", self.horizons);
        b.opt_str("--confidence", &self.confidence);
        b.opt_num_if("--lags", &self.lags);
        let r = b.into_vec();
        proof {
            assert(r.deep_view() =~= var_forecast_toks(*self));
        }
        r
    }
}

} // verus!
