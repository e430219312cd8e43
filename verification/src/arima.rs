//! ARIMA operations: argument vectors and defaults.
//!
//! Estimation dispatches between an explicit order and automatic order
//! search: when the autoregressive order is given it is emitted directly and
//! every search-bound option is suppressed; when it is omitted the
//! search-bound options are emitted instead.

use vstd::prelude::*;
use crate::args::{ArgBuf, flag_s, flag_u, opt_u, with_format};
use crate::digits::dec_str;

verus! {

pub struct ArimaEstimateParams {
    pub data: String,
    pub column: u32,
    /// Explicit autoregressive order; absence selects automatic search.
    pub p: Option<u32>,
    pub d: u32,
    pub q: u32,
    pub method: String,
    pub max_p: u32,
    pub max_d: u32,
    pub max_q: u32,
    pub criterion: String,
}

pub struct ArimaAutoParams {
    pub data: String,
    pub column: u32,
    pub max_p: u32,
    pub max_d: u32,
    pub max_q: u32,
    pub criterion: String,
    pub method: String,
}

pub struct ArimaForecastParams {
    pub data: String,
    pub column: u32,
    pub p: Option<u32>,
    pub d: u32,
    pub q: u32,
    pub horizons: u32,
    /// Confidence level, already rendered as a locale-independent decimal
    /// string; the boundary layer renders the numeric value it received.
    pub confidence: String,
    pub method: String,
}

pub fn default_column() -> (r: u32)
    ensures
        r == 1u32,
{
    1
}

/// The explicit autoregressive order used when none is supplied but explicit
/// mode is requested.
pub fn default_one() -> (r: u32)
    ensures
        r == 1u32,
{
    1
}

pub fn default_max_order() -> (r: u32)
    ensures
        r == 5u32,
{
    5
}

pub fn default_max_diff() -> (r: u32)
    ensures
        r == 2u32,
{
    2
}

pub fn default_method() -> (r: String)
    ensures
        r@ == "css_mle"@,
{
    String::from_str("css_mle")
}

pub fn default_criterion() -> (r: String)
    ensures
        r@ == "bic"@,
{
    String::from_str("bic")
}

pub fn default_horizons() -> (r: u32)
    ensures
        r == 12u32,
{
    12
}

pub fn default_confidence() -> (r: String)
    ensures
        r@ == "0.95"@,
{
    String::from_str("0.95")
}

/// The search-bound options emitted only in automatic-order mode.
pub open spec fn arima_search_toks(p: ArimaEstimateParams) -> Seq<Seq<char>> {
    flag_u("--max-p"@, p.max_p) + flag_u("--max-d"@, p.max_d) + flag_u("--max-q"@, p.max_q)
        + flag_s("--criterion"@, p.criterion@)
}

pub open spec fn arima_estimate_toks(p: ArimaEstimateParams) -> Seq<Seq<char>> {
    seq!["arima"@, "estimate"@, p.data@] + flag_u("--column"@, p.column) + opt_u("--p"@, p.p)
        + flag_u("--d"@, p.d) + flag_u("--q"@, p.q) + flag_s("--method"@, p.method@) + (
    if p.p is None {
        arima_search_toks(p)
    } else {
        Seq::<Seq<char>>::empty()
    })
}

/// Supplying the explicit order suppresses every search-bound option, even
/// when search-bound values are also supplied; omitting it emits the
/// search-bound options instead, and no explicit-order option.
pub proof fn lemma_arima_estimate_dispatch(p: ArimaEstimateParams)
    ensures
        p.p matches Some(n) ==> arima_estimate_toks(p) == seq!["arima"@, "estimate"@, p.data@]
            + flag_u("--column"@, p.column) + seq!["--p"@, dec_str(n as nat)] + flag_u("--d"@, p.d)
            + flag_u("--q"@, p.q) + flag_s("--method"@, p.method@),
        p.p is None ==> arima_estimate_toks(p) == seq!["arima"@, "estimate"@, p.data@] + flag_u(
            "--column"@,
            p.column,
        ) + flag_u("--d"@, p.d) + flag_u("--q"@, p.q) + flag_s("--method"@, p.method@)
            + arima_search_toks(p),
{
    match p.p {
        Option::Some(n) => {
            assert(arima_estimate_toks(p) =~= seq!["arima"@, "estimate"@, p.data@] + flag_u(
                "--column"@,
                p.column,
            ) + seq!["--p"@, dec_str(n as nat)] + flag_u("--d"@, p.d) + flag_u("--q"@, p.q)
                + flag_s("--method"@, p.method@));
        },
        Option::None => {
            assert(arima_estimate_toks(p) =~= seq!["arima"@, "estimate"@, p.data@] + flag_u(
                "--column"@,
                p.column,
            ) + flag_u("--d"@, p.d) + flag_u("--q"@, p.q) + flag_s("--method"@, p.method@)
                + arima_search_toks(p));
        },
    }
}

/// With every defaulted field at its default and the order omitted,
/// estimation runs in automatic mode: each defaulted flag at its
/// default-stringified value, the search bounds included, the
/// machine-readable-output flag last, and no explicit-order option.
pub proof fn lemma_arima_estimate_auto_defaults(p: ArimaEstimateParams)
    requires
        p.p is None,
        p.column == 1u32,
        p.d == 0u32,
        p.q == 0u32,
        p.method@ == "css_mle"@,
        p.max_p == 5u32,
        p.max_d == 2u32,
        p.max_q == 5u32,
        p.criterion@ == "bic"@,
    ensures
        with_format(arima_estimate_toks(p)) == seq![
            "arima"@,
            "estimate"@,
            p.data@,
            "--column"@,
            "1"@,
            "--d"@,
            "0"@,
            "--q"@,
            "0"@,
            "--method"@,
            "css_mle"@,
            "--max-p"@,
            "5"@,
            "--max-d"@,
            "2"@,
            "--max-q"@,
            "5"@,
            "--criterion"@,
            "bic"@,
            "--format=json"@,
        ],
{
    crate::digits::lemma_dec_str_values();
    reveal_strlit("0");
    reveal_strlit("1");
    reveal_strlit("2");
    reveal_strlit("5");
    assert("0"@ =~= seq!['0']);
    assert("1"@ =~= seq!['1']);
    assert("2"@ =~= seq!['2']);
    assert("5"@ =~= seq!['5']);
    assert(with_format(arima_estimate_toks(p)) =~= seq![
        "arima"@,
        "estimate"@,
        p.data@,
        "--column"@,
        "1"@,
        "--d"@,
        "0"@,
        "--q"@,
        "0"@,
        "--method"@,
        "css_mle"@,
        "--max-p"@,
        "5"@,
        "--max-d"@,
        "2"@,
        "--max-q"@,
        "5"@,
        "--criterion"@,
        "bic"@,
        "--format=json"@,
    ]);
}

impl ArimaEstimateParams {
    pub fn args(&self) -> (r: Vec<String>)
        ensures
            r.deep_view() == arima_estimate_toks(*self),
    {
        let mut b = ArgBuf::new();
        b.lit("arima");
        b.lit("estimate");
        b.arg(&self.data);
        b.opt_num("--column", self.column);
        b.opt_num_if("--p", &self.p);
        b.opt_num("--d", self.d);
        b.opt_num("--q", self.q);
        b.opt_str("--method", &self.method);
        if self.p.is_none() {
            b.opt_num("--max-p", self.max_p);
            b.opt_num("--max-d", self.max_d);
            b.opt_num("--max-q", self.max_q);
            b.opt_str("--criterion", &self.criterion);
        }
        let r = b.into_vec();
        proof {
            assert(r.deep_view() =~= arima_estimate_toks(*self));
        }
        r
    }
}

pub open spec fn arima_auto_toks(p: ArimaAutoParams) -> Seq<Seq<char>> {
    seq!["arima"@, "auto"@, p.data@] + flag_u("--column"@, p.column) + flag_u("--max-p"@, p.max_p)
        + flag_u("--max-d"@, p.max_d) + flag_u("--max-q"@, p.max_q) + flag_s(
        "--criterion"@,
        p.criterion@,
    ) + flag_s("--method"@, p.method@)
}

impl ArimaAutoParams {
    pub fn args(&self) -> (r: Vec<String>)
        ensures
            r.deep_view() == arima_auto_toks(*self),
    {
        let mut b = ArgBuf::new();
        b.lit("arima");
        b.lit("auto");
        b.arg(&self.data);
        b.opt_num("--column", self.column);
        b.opt_num("--max-p", self.max_p);
        b.opt_num("--max-d", self.max_d);
        b.opt_num("--max-q", self.max_q);
        b.opt_str("--criterion", &self.criterion);
        b.opt_str("--method", &self.method);
        let r = b.into_vec();
        proof {
            assert(r.deep_view() =~= arima_auto_toks(*self));
        }
        r
    }
}

pub open spec fn arima_forecast_toks(p: ArimaForecastParams) -> Seq<Seq<char>> {
    seq!["arima"@, "forecast"@, p.data@] + flag_u("--column"@, p.column) + flag_u("--d"@, p.d)
        + flag_u("--q"@, p.q) + flag_u("--horizons"@, p.horizons) + flag_s(
        "--confidence"@,
        p.confidence@,
    ) + flag_s("--method"@, p.method@) + opt_u("--p"@, p.p)
}

impl ArimaForecastParams {
    pub fn args(&self) -> (r: Vec<String>)
        ensures
            r.deep_view() == arima_forecast_toks(*self),
    {
        let mut b = ArgBuf::new();
        b.lit("arima");
        b.lit("forecast");
        b.arg(&self.data);
        b.opt_num("--column", self.column);
        b.opt_num("--d", self.d);
        b.opt_num("--q", self.q);
        b.opt_num("--horizons", self.horizons);
        b.opt_str("--confidence", &self.confidence);
        b.opt_str("--method", &self.method);
        b.opt_num_if("--p", &self.p);
        let r = b.into_vec();
        proof {
            assert(r.deep_view() =~= arima_forecast_toks(*self));
        }
        r
    }
}

} // verus!
