//! Local-projection operations: argument vectors and defaults.
//!
//! Estimation is a multi-method dispatch: the method discriminator selects
//! which method-specific options are meaningful, and options belonging to a
//! non-selected method are never emitted, even when their fields hold stale
//! values.

use vstd::prelude::*;
use crate::args::{ArgBuf, flag_s, flag_u, nonempty_s, opt_s, opt_u, opt_view, with_format};

verus! {

pub struct LpEstimateParams {
    pub data: String,
    /// standard | iv | smooth | state | propensity | robust
    pub method: String,
    pub shock: u32,
    pub horizons: u32,
    pub control_lags: u32,
    pub vcov: String,
    /// Meaningful for the iv method; the empty string means "absent".
    pub instruments: String,
    /// Meaningful for the smooth method.
    pub knots: Option<u32>,
    /// Meaningful for the smooth method; rendered decimal.
    pub lambda: Option<String>,
    /// Meaningful for the state method.
    pub state_var: Option<u32>,
    /// Meaningful for the state method; rendered decimal.
    pub gamma: Option<String>,
    /// Meaningful for the state method.
    pub transition: Option<String>,
    /// Meaningful for the propensity and robust methods.
    pub treatment: Option<u32>,
    /// Meaningful for the propensity and robust methods.
    pub score_method: Option<String>,
}

pub struct LpIrfParams {
    pub data: String,
    pub shock: Option<u32>,
    pub shocks: Option<String>,
    pub horizons: u32,
    pub lags: Option<u32>,
    pub var_lags: Option<u32>,
    pub id: String,
    pub ci: Option<String>,
    pub replications: Option<u32>,
    /// Rendered decimal.
    pub conf_level: Option<String>,
    pub vcov: Option<String>,
    pub config: String,
}

pub struct LpFevdParams {
    pub data: String,
    pub horizons: u32,
    pub lags: Option<u32>,
    pub var_lags: Option<u32>,
    pub id: String,
    pub vcov: Option<String>,
    pub config: String,
}

pub struct LpHdParams {
    pub data: String,
    pub lags: Option<u32>,
    pub var_lags: Option<u32>,
    pub id: String,
    pub vcov: Option<String>,
    pub config: String,
}

pub struct LpForecastParams {
    pub data: String,
    pub shock: Option<u32>,
    pub horizons: u32,
    /// Rendered decimal.
    pub shock_size: Option<String>,
    pub lags: Option<u32>,
    pub vcov: Option<String>,
    pub ci_method: Option<String>,
    /// Rendered decimal.
    pub conf_level: Option<String>,
    pub n_boot: Option<u32>,
}

pub fn default_method() -> (r: String)
    ensures
        r@ == "standard"@,
{
    String::from_str("standard")
}

pub fn default_shock() -> (r: u32)
    ensures
        r == 1u32,
{
    1
}

pub fn default_horizons() -> (r: u32)
    ensures
        r == 20u32,
{
    20
}

pub fn default_control_lags() -> (r: u32)
    ensures
        r == 4u32,
{
    4
}

pub fn default_vcov() -> (r: String)
    ensures
        r@ == "newey_west"@,
{
    String::from_str("newey_west")
}

pub fn default_id() -> (r: String)
    ensures
        r@ == "cholesky"@,
{
    String::from_str("cholesky")
}

/// The method-specific options of the selected estimation method, and only
/// of that method.
pub open spec fn lp_method_toks(p: LpEstimateParams) -> Seq<Seq<char>> {
    if p.method@ == "iv"@ {
        nonempty_s("--instruments"@, p.instruments@)
    } else if p.method@ == "smooth"@ {
        opt_u("--knots"@, p.knots) + opt_s("--lambda"@, opt_view(p.lambda))
    } else if p.method@ == "state"@ {
        opt_u("--state-var"@, p.state_var) + opt_s("--gamma"@, opt_view(p.gamma)) + opt_s(
            "--transition"@,
            opt_view(p.transition),
        )
    } else if p.method@ == "propensity"@ || p.method@ == "robust"@ {
        opt_u("--treatment"@, p.treatment) + opt_s("--score-method"@, opt_view(p.score_method))
    } else {
        Seq::<Seq<char>>::empty()
    }
}

pub open spec fn lp_estimate_toks(p: LpEstimateParams) -> Seq<Seq<char>> {
    seq!["lp"@, "estimate"@, p.data@] + flag_s("--method"@, p.method@) + flag_u("--shock"@, p.shock)
        + flag_u("--horizons"@, p.horizons) + flag_u("--control-lags"@, p.control_lags) + flag_s(
        "--vcov"@,
        p.vcov@,
    ) + lp_method_toks(p)
}

/// With every defaulted field at its default, estimation's vector holds
/// each defaulted flag at its default-stringified value, in the fixed
/// order, with the machine-readable-output flag last. Nothing is required
/// of the method-specific fields: under the standard method not one of
/// them is emitted, however stale their values.
pub proof fn lemma_lp_estimate_defaults(p: LpEstimateParams)
    requires
        p.method@ == "standard"@,
        p.shock == 1u32,
        p.horizons == 20u32,
        p.control_lags == 4u32,
        p.vcov@ == "newey_west"@,
    ensures
        with_format(lp_estimate_toks(p)) == seq![
            "lp"@,
            "estimate"@,
            p.data@,
            "--method"@,
            "standard"@,
            "--shock"@,
            "1"@,
            "--horizons"@,
            "20"@,
            "--control-lags"@,
            "4"@,
            "--vcov"@,
            "newey_west"@,
            "--format=json"@,
        ],
{
    crate::digits::lemma_dec_str_values();
    reveal_strlit("1");
    reveal_strlit("4");
    reveal_strlit("20");
    reveal_strlit("standard");
    reveal_strlit("iv");
    reveal_strlit("smooth");
    reveal_strlit("state");
    reveal_strlit("propensity");
    reveal_strlit("robust");
    assert("1"@ =~= seq!['1']);
    assert("4"@ =~= seq!['4']);
    assert("20"@ =~= seq!['2', '0']);
    assert("standard"@.len() == 8);
    assert("iv"@.len() == 2);
    assert("smooth"@.len() == 6);
    assert("state"@.len() == 5);
    assert("propensity"@.len() == 10);
    assert("robust"@.len() == 6);
    assert(p.method@ != "iv"@);
    assert(p.method@ != "smooth"@);
    assert(p.method@ != "state"@);
    assert(p.method@ != "propensity"@);
    assert(p.method@ != "robust"@);
    assert(with_format(lp_estimate_toks(p)) =~= seq![
        "lp"@,
        "estimate"@,
        p.data@,
        "--method"@,
        "standard"@,
        "--shock"@,
        "1"@,
        "--horizons"@,
        "20"@,
        "--control-lags"@,
        "4"@,
        "--vcov"@,
        "newey_west"@,
        "--format=json"@,
    ]);
}

impl LpEstimateParams {
    pub fn args(&self) -> (r: Vec<String>)
        ensures
            r.deep_view() == lp_estimate_toks(*self),
    {
        let mut b = ArgBuf::new();
        b.lit("lp");
        b.lit("estimate");
        b.arg(&self.data);
        b.opt_str("--method", &self.method);
        b.opt_num("--shock", self.shock);
        b.opt_num("--horizons", self.horizons);
        b.opt_num("--control-lags", self.control_lags);
        b.opt_str("--vcov", &self.vcov);
        let m_iv = String::from_str("iv");
        let m_smooth = String::from_str("smooth");
        let m_state = String::from_str("state");
        let m_propensity = String::from_str("propensity");
        let m_robust = String::from_str("robust");
        if self.method == m_iv {
            b.opt_str_nonempty("--instruments", &self.instruments);
        } else if self.method == m_smooth {
            b.opt_num_if("--knots", &self.knots);
            b.opt_str_if("--lambda", &self.lambda);
        } else if self.method == m_state {
            b.opt_num_if("--state-var", &self.state_var);
            b.opt_str_if("--gamma", &self.gamma);
            b.opt_str_if("--transition", &self.transition);
        } else if self.method == m_propensity || self.method == m_robust {
            b.opt_num_if("--treatment", &self.treatment);
            b.opt_str_if("--score-method", &self.score_method);
        }
        let r = b.into_vec();
        proof {
            assert(r.deep_view() =~= lp_estimate_toks(*self));
        }
        r
    }
}

pub open spec fn lp_irf_toks(p: LpIrfParams) -> Seq<Seq<char>> {
    seq!["lp"@, "irf"@, p.data@] + flag_u("--horizons"@, p.horizons) + flag_s("--id"@, p.id@)
        + opt_u("--shock"@, p.shock) + opt_s("--shocks"@, opt_view(p.shocks)) + opt_u(
        "--lags"@,
        p.lags,
    ) + opt_u("--var-lags"@, p.var_lags) + opt_s("--ci"@, opt_view(p.ci)) + opt_u(
        "--replications"@,
        p.replications,
    ) + opt_s("--conf-level"@, opt_view(p.conf_level)) + opt_s("--vcov"@, opt_view(p.vcov))
        + nonempty_s("--config"@, p.config@)
}

impl LpIrfParams {
    pub fn args(&self) -> (r: Vec<String>)
        ensures
            r.deep_view() == lp_irf_toks(*self),
    {
        let mut b = ArgBuf::new();
        b.lit("lp");
        b.lit("irf");
        b.arg(&self.data);
        b.opt_num("--horizons", self.horizons);
        b.opt_str("--id", &self.id);
        b.opt_num_if("--shock", &self.shock);
        b.opt_str_if("--shocks", &self.shocks);
        b.opt_num_if("--lags", &self.lags);
        b.opt_num_if("--var-lags", &self.var_lags);
        b.opt_str_if("--ci", &self.ci);
        b.opt_num_if("--replications", &self.replications);
        b.opt_str_if("--conf-level", &self.conf_level);
        b.opt_str_if("--vcov", &self.vcov);
        b.opt_str_nonempty("--config", &self.config);
        let r = b.into_vec();
        proof {
            assert(r.deep_view() =~= lp_irf_toks(*self));
        }
        r
    }
}

pub open spec fn lp_fevd_toks(p: LpFevdParams) -> Seq<Seq<char>> {
    seq!["lp"@, "fevd"@, p.data@] + flag_u("--horizons"@, p.horizons) + flag_s("--id"@, p.id@)
        + opt_u("--lags"@, p.lags) + opt_u("--var-lags"@, p.var_lags) + opt_s(
        "--vcov"@,
        opt_view(p.vcov),
    ) + nonempty_s("--config"@, p.config@)
}

impl LpFevdParams {
    pub fn args(&self) -> (r: Vec<String>)
        ensures
            r.deep_view() == lp_fevd_toks(*self),
    {
        let mut b = ArgBuf::new();
        b.lit("lp");
        b.lit("fevd");
        b.arg(&self.data);
        b.opt_num("--horizons", self.horizons);
        b.opt_str("--id", &self.id);
        b.opt_num_if("--lags", &self.lags);
        b.opt_num_if("--var-lags", &self.var_lags);
        b.opt_str_if("--vcov", &self.vcov);
        b.opt_str_nonempty("--config", &self.config);
        let r = b.into_vec();
        proof {
            assert(r.deep_view() =~= lp_fevd_toks(*self));
        }
        r
    }
}

pub open spec fn lp_hd_toks(p: LpHdParams) -> Seq<Seq<char>> {
    seq!["lp"@, "hd"@, p.data@] + flag_s("--id"@, p.id@) + opt_u("--lags"@, p.lags) + opt_u(
        "--var-lags"@,
        p.var_lags,
    ) + opt_s("--vcov"@, opt_view(p.vcov)) + nonempty_s("--config"@, p.config@)
}

impl LpHdParams {
    pub fn args(&self) -> (r: Vec<String>)
        ensures
            r.deep_view() == lp_hd_toks(*self),
    {
        let mut b = ArgBuf::new();
        b.lit("lp");
        b.lit("hd");
        b.arg(&self.data);
        b.opt_str("--id", &self.id);
        b.opt_num_if("--lags", &self.lags);
        b.opt_num_if("--var-lags", &self.var_lags);
        b.opt_str_if("--vcov", &self.vcov);
        b.opt_str_nonempty("--config", &self.config);
        let r = b.into_vec();
        proof {
            assert(r.deep_view() =~= lp_hd_toks(*self));
        }
        r
    }
}

pub open spec fn lp_forecast_toks(p: LpForecastParams) -> Seq<Seq<char>> {
    seq!["lp"@, "forecast"@, p.data@] + flag_u("--horizons"@, p.horizons) + opt_u(
        "--shock"@,
        p.shock,
    ) + opt_s("--shock-size"@, opt_view(p.shock_size)) + opt_u("--lags"@, p.lags) + opt_s(
        "--vcov"@,
        opt_view(p.vcov),
    ) + opt_s("--ci-method"@, opt_view(p.ci_method)) + opt_s("--conf-level"@, opt_view(p.conf_level))
        + opt_u("--n-boot"@, p.n_boot)
}

impl LpForecastParams {
    pub fn args(&self) -> (r: Vec<String>)
        ensures
            r.deep_view() == lp_forecast_toks(*self),
    {
        let mut b = ArgBuf::new();
        b.lit("lp");
        b.lit("forecast");
        b.arg(&self.data);
        b.opt_num("--horizons", self.horizons);
        b.opt_num_if("--shock", &self.shock);
        b.opt_str_if("--shock-size", &self.shock_size);
        b.opt_num_if("--lags", &self.lags);
        b.opt_str_if("--vcov", &self.vcov);
        b.opt_str_if("--ci-method", &self.ci_method);
        b.opt_str_if("--conf-level", &self.conf_level);
        b.opt_num_if("--n-boot", &self.n_boot);
        let r = b.into_vec();
        proof {
            assert(r.deep_view() =~= lp_forecast_toks(*self));
        }
        r
    }
}

} // verus!
