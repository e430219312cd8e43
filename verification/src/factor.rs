//! Factor-model operations: argument vectors and defaults.
//!
//! Estimation takes a model-type discriminator (static, dynamic, gdfm) as a
//! positional token before the dataset path; each model type has its own
//! option set.

use vstd::prelude::*;
use crate::args::{ArgBuf, flag_s, flag_u, opt_u, with_format};

verus! {

pub struct FactorStaticParams {
    pub data: String,
    pub nfactors: Option<u32>,
    pub criterion: String,
}

pub struct FactorDynamicParams {
    pub data: String,
    pub nfactors: Option<u32>,
    pub factor_lags: u32,
    pub method: String,
}

pub struct FactorGdfmParams {
    pub data: String,
    pub nfactors: Option<u32>,
    pub dynamic_rank: Option<u32>,
}

pub struct FactorForecastParams {
    pub data: String,
    pub nfactors: Option<u32>,
    pub horizon: u32,
    pub ci_method: String,
    /// Confidence level, rendered as a locale-independent decimal string.
    pub conf_level: String,
}

pub fn default_criterion() -> (r: String)
    ensures
        r@ == "ic1"@,
{
    String::from_str("ic1")
}

pub fn default_factor_lags() -> (r: u32)
    ensures
        r == 1u32,
{
    1
}

pub fn default_method() -> (r: String)
    ensures
        r@ == "twostep"@,
{
    String::from_str("twostep")
}

pub fn default_horizon() -> (r: u32)
    ensures
        r == 12u32,
{
    12
}

pub fn default_ci_method() -> (r: String)
    ensures
        r@ == "none"@,
{
    String::from_str("none")
}

pub fn default_conf_level() -> (r: String)
    ensures
        r@ == "0.95"@,
{
    String::from_str("0.95")
}

pub open spec fn factor_static_toks(p: FactorStaticParams) -> Seq<Seq<char>> {
    seq!["factor"@, "estimate"@, "static"@, p.data@] + opt_u("--nfactors"@, p.nfactors) + flag_s(
        "--criterion"@,
        p.criterion@,
    )
}

/// With the factor count omitted and the default criterion, the static
/// estimation vector holds the model-type discriminator before the dataset
/// path, the criterion flag at its default, and the machine-readable
/// output flag last.
pub proof fn lemma_factor_static_defaults(p: FactorStaticParams)
    requires
        p.nfactors is None,
        p.criterion@ == "ic1"@,
    ensures
        with_format(factor_static_toks(p)) == seq![
            "factor"@,
            "estimate"@,
            "static"@,
            p.data@,
            "--criterion"@,
            "ic1"@,
            "--format=json"@,
        ],
{
    assert(with_format(factor_static_toks(p)) =~= seq![
        "factor"@,
        "estimate"@,
        "static"@,
        p.data@,
        "--criterion"@,
        "ic1"@,
        "--format=json"@,
    ]);
}

impl FactorStaticParams {
    pub fn args(&self) -> (r: Vec<String>)
        ensures
            r.deep_view() == factor_static_toks(*self),
    {
        let mut b = ArgBuf::new();
        b.lit("factor");
        b.lit("estimate");
        b.lit("static");
        b.arg(&self.data);
        b.opt_num_if("--nfactors", &self.nfactors);
        b.opt_str("--criterion", &self.criterion);
        let r = b.into_vec();
        proof {
            assert(r.deep_view() =~= factor_static_toks(*self));
        }
        r
    }
}

pub open spec fn factor_dynamic_toks(p: FactorDynamicParams) -> Seq<Seq<char>> {
    seq!["factor"@, "estimate"@, "dynamic"@, p.data@] + opt_u("--nfactors"@, p.nfactors) + flag_u(
        "--factor-lags"@,
        p.factor_lags,
    ) + flag_s("--method"@, p.method@)
}

impl FactorDynamicParams {
    pub fn args(&self) -> (r: Vec<String>)
        ensures
            r.deep_view() == factor_dynamic_toks(*self),
    {
        let mut b = ArgBuf::new();
        b.lit("factor");
        b.lit("estimate");
        b.lit("dynamic");
        b.arg(&self.data);
        b.opt_num_if("--nfactors", &self.nfactors);
        b.opt_num("--factor-lags", self.factor_lags);
        b.opt_str("--method", &self.method);
        let r = b.into_vec();
        proof {
            assert(r.deep_view() =~= factor_dynamic_toks(*self));
        }
        r
    }
}

pub open spec fn factor_gdfm_toks(p: FactorGdfmParams) -> Seq<Seq<char>> {
    seq!["factor"@, "estimate"@, "gdfm"@, p.data@] + opt_u("--nfactors"@, p.nfactors) + opt_u(
        "--dynamic-rank"@,
        p.dynamic_rank,
    )
}

impl FactorGdfmParams {
    pub fn args(&self) -> (r: Vec<String>)
        ensures
            r.deep_view() == factor_gdfm_toks(*self),
    {
        let mut b = ArgBuf::new();
        b.lit("factor");
        b.lit("estimate");
        b.lit("gdfm");
        b.arg(&self.data);
        b.opt_num_if("--nfactors", &self.nfactors);
        b.opt_num_if("--dynamic-rank", &self.dynamic_rank);
        let r = b.into_vec();
        proof {
            assert(r.deep_view() =~= factor_gdfm_toks(*self));
        }
        r
    }
}

pub open spec fn factor_forecast_toks(p: FactorForecastParams) -> Seq<Seq<char>> {
    seq!["factor"@, "forecast"@, p.data@] + opt_u("--nfactors"@, p.nfactors) + flag_u(
        "--horizon"@,
        p.horizon,
    ) + flag_s("--ci-method"@, p.ci_method@) + flag_s("--conf-level"@, p.conf_level@)
}

/// With every defaulted field at its default and the factor count omitted,
/// the forecast vector holds each defaulted flag at its default value, in
/// the fixed order, with the machine-readable-output flag last.
pub proof fn lemma_factor_forecast_defaults(p: FactorForecastParams)
    requires
        p.nfactors is None,
        p.horizon == 12u32,
        p.ci_method@ == "none"@,
        p.conf_level@ == "0.95"@,
    ensures
        with_format(factor_forecast_toks(p)) == seq![
            "factor"@,
            "forecast"@,
            p.data@,
            "--horizon"@,
            "12"@,
            "--ci-method"@,
            "none"@,
            "--conf-level"@,
            "0.95"@,
            "--format=json"@,
        ],
{
    crate::digits::lemma_dec_str_values();
    reveal_strlit("12");
    assert("12"@ =~= seq!['1', '2']);
    assert(with_format(factor_forecast_toks(p)) =~= seq![
        "factor"@,
        "forecast"@,
        p.data@,
        "--horizon"@,
        "12"@,
        "--ci-method"@,
        "none"@,
        "--conf-level"@,
        "0.95"@,
        "--format=json"@,
    ]);
}

impl FactorForecastParams {
    pub fn args(&self) -> (r: Vec<String>)
        ensures
            r.deep_view() == factor_forecast_toks(*self),
    {
        let mut b = ArgBuf::new();
        b.lit("factor");
        b.lit("forecast");
        b.arg(&self.data);
        b.opt_num_if("--nfactors", &self.nfactors);
        b.opt_num("--horizon", self.horizon);
        b.opt_str("--ci-method", &self.ci_method);
        b.opt_str("--conf-level", &self.conf_level);
        let r = b.into_vec();
        proof {
            assert(r.deep_view() =~= factor_forecast_toks(*self));
        }
        r
    }
}

} // verus!
