//! Non-Gaussian SVAR identification: argument vectors and defaults.

use vstd::prelude::*;
use crate::args::{ArgBuf, flag_s, flag_u, opt_s, opt_u, opt_view, with_format};

verus! {

pub struct NongaussianFasticaParams {
    pub data: String,
    pub lags: Option<u32>,
    pub method: String,
    pub contrast: String,
}

pub struct NongaussianMlParams {
    pub data: String,
    pub lags: Option<u32>,
    pub distribution: String,
}

pub struct NongaussianHeteroskedasticityParams {
    pub data: String,
    pub lags: Option<u32>,
    pub method: String,
    pub config: Option<String>,
    pub regimes: u32,
}

pub struct NongaussianNormalityParams {
    pub data: String,
    pub lags: Option<u32>,
}

pub struct NongaussianIdentifiabilityParams {
    pub data: String,
    pub lags: Option<u32>,
    pub test: String,
    pub method: String,
    pub contrast: String,
}

pub fn default_fastica_method() -> (r: String)
    ensures
        r@ == "fastica"@,
{
    String::from_str("fastica")
}

pub fn default_contrast() -> (r: String)
    ensures
        r@ == "logcosh"@,
{
    String::from_str("logcosh")
}

pub fn default_distribution() -> (r: String)
    ensures
        r@ == "student_t"@,
{
    String::from_str("student_t")
}

pub fn default_heterosk_method() -> (r: String)
    ensures
        r@ == "markov"@,
{
    String::from_str("markov")
}

pub fn default_regimes() -> (r: u32)
    ensures
        r == 2u32,
{
    2
}

pub fn default_test_type() -> (r: String)
    ensures
        r@ == "all"@,
{
    String::from_str("all")
}

pub open spec fn nongaussian_fastica_toks(p: NongaussianFasticaParams) -> Seq<Seq<char>> {
    seq!["nongaussian"@, "fastica"@, p.data@] + opt_u("--lags"@, p.lags) + flag_s(
        "--method"@,
        p.method@,
    ) + flag_s("--contrast"@, p.contrast@)
}

/// With every defaulted field at its default and the lag order omitted,
/// the vector holds each defaulted flag at its default value, in the fixed
/// order, with the machine-readable-output flag last.
pub proof fn lemma_nongaussian_fastica_defaults(p: NongaussianFasticaParams)
    requires
        p.lags is None,
        p.method@ == "fastica"@,
        p.contrast@ == "logcosh"@,
    ensures
        with_format(nongaussian_fastica_toks(p)) == seq![
            "nongaussian"@,
            "fastica"@,
            p.data@,
            "--method"@,
            "fastica"@,
            "--contrast"@,
            "logcosh"@,
            "--format=json"@,
        ],
{
    assert(with_format(nongaussian_fastica_toks(p)) =~= seq![
        "nongaussian"@,
        "fastica"@,
        p.data@,
        "--method"@,
        "fastica"@,
        "--contrast"@,
        "logcosh"@,
        "--format=json"@,
    ]);
}

impl NongaussianFasticaParams {
    pub fn args(&self) -> (r: Vec<String>)
        ensures
            r.deep_view() == nongaussian_fastica_toks(*self),
    {
        let mut b = ArgBuf::new();
        b.lit("nongaussian");
        b.lit("fastica");
        b.arg(&self.data);
        b.opt_num_if("--lags", &self.lags);
        b.opt_str("--method", &self.method);
        b.opt_str("--contrast", &self.contrast);
        let r = b.into_vec();
        proof {
            assert(r.deep_view() =~= nongaussian_fastica_toks(*self));
        }
        r
    }
}

pub open spec fn nongaussian_ml_toks(p: NongaussianMlParams) -> Seq<Seq<char>> {
    seq!["nongaussian"@, "ml"@, p.data@] + opt_u("--lags"@, p.lags) + flag_s(
        "--distribution"@,
        p.distribution@,
    )
}

impl NongaussianMlParams {
    pub fn args(&self) -> (r: Vec<String>)
        ensures
            r.deep_view() == nongaussian_ml_toks(*self),
    {
        let mut b = ArgBuf::new();
        b.lit("nongaussian");
        b.lit("ml");
        b.arg(&self.data);
        b.opt_num_if("--lags", &self.lags);
        b.opt_str("--distribution", &self.distribution);
        let r = b.into_vec();
        proof {
            assert(r.deep_view() =~= nongaussian_ml_toks(*self));
        }
        r
    }
}

pub open spec fn nongaussian_heteroskedasticity_toks(
    p: NongaussianHeteroskedasticityParams,
) -> Seq<Seq<char>> {
    seq!["nongaussian"@, "heteroskedasticity"@, p.data@] + opt_u("--lags"@, p.lags) + flag_s(
        "--method"@,
        p.method@,
    ) + opt_s("--config"@, opt_view(p.config)) + flag_u("--regimes"@, p.regimes)
}

impl NongaussianHeteroskedasticityParams {
    pub fn args(&self) -> (r: Vec<String>)
        ensures
            r.deep_view() == nongaussian_heteroskedasticity_toks(*self),
    {
        let mut b = ArgBuf::new();
        b.lit("nongaussian");
        b.lit("heteroskedasticity");
        b.arg(&self.data);
        b.opt_num_if("--lags", &self.lags);
        b.opt_str("--method", &self.method);
        b.opt_str_if("--config", &self.config);
        b.opt_num("--regimes", self.regimes);
        let r = b.into_vec();
        proof {
            assert(r.deep_view() =~= nongaussian_heteroskedasticity_toks(*self));
        }
        r
    }
}

pub open spec fn nongaussian_normality_toks(p: NongaussianNormalityParams) -> Seq<Seq<char>> {
    seq!["nongaussian"@, "normality"@, p.data@] + opt_u("--lags"@, p.lags)
}

impl NongaussianNormalityParams {
    pub fn args(&self) -> (r: Vec<String>)
        ensures
            r.deep_view() == nongaussian_normality_toks(*self),
    {
        let mut b = ArgBuf::new();
        b.lit("nongaussian");
        b.lit("normality");
        b.arg(&self.data);
        b.opt_num_if("--lags", &self.lags);
        let r = b.into_vec();
        proof {
            assert(r.deep_view() =~= nongaussian_normality_toks(*self));
        }
        r
    }
}

pub open spec fn nongaussian_identifiability_toks(
    p: NongaussianIdentifiabilityParams,
) -> Seq<Seq<char>> {
    seq!["nongaussian"@, "identifiability"@, p.data@] + opt_u("--lags"@, p.lags) + flag_s(
        "--test"@,
        p.test@,
    ) + flag_s("--method"@, p.method@) + flag_s("--contrast"@, p.contrast@)
}

impl NongaussianIdentifiabilityParams {
    pub fn args(&self) -> (r: Vec<String>)
        ensures
            r.deep_view() == nongaussian_identifiability_toks(*self),
    {
        let mut b = ArgBuf::new();
        b.lit("nongaussian");
        b.lit("identifiability");
        b.arg(&self.data);
        b.opt_num_if("--lags", &self.lags);
        b.opt_str("--test", &self.test);
        b.opt_str("--method", &self.method);
        b.opt_str("--contrast", &self.contrast);
        let r = b.into_vec();
        proof {
            assert(r.deep_view() =~= nongaussian_identifiability_toks(*self));
        }
        r
    }
}

} // verus!
