//! Unit-root and cointegration test operations: argument vectors and
//! defaults.

use vstd::prelude::*;
use crate::args::{ArgBuf, flag_s, flag_u, opt_u, with_format};

verus! {

pub struct TestAdfParams {
    pub data: String,
    pub column: u32,
    pub max_lags: Option<u32>,
    pub trend: String,
}

pub struct TestKpssParams {
    pub data: String,
    pub column: u32,
    pub trend: String,
}

pub struct TestPpParams {
    pub data: String,
    pub column: u32,
    pub trend: String,
}

pub struct TestZaParams {
    pub data: String,
    pub column: u32,
    pub trend: String,
    /// Trimming fraction, rendered as a locale-independent decimal string.
    pub trim: String,
}

pub struct TestNpParams {
    pub data: String,
    pub column: u32,
    pub trend: String,
}

pub struct TestJohansenParams {
    pub data: String,
    pub lags: u32,
    pub trend: String,
}

pub fn default_column() -> (r: u32)
    ensures
        r == 1u32,
{
    1
}

pub fn default_trend() -> (r: String)
    ensures
        r@ == "constant"@,
{
    String::from_str("constant")
}

pub fn default_za_trend() -> (r: String)
    ensures
        r@ == "both"@,
{
    String::from_str("both")
}

pub fn default_trim() -> (r: String)
    ensures
        r@ == "0.15"@,
{
    String::from_str("0.15")
}

pub fn default_lags() -> (r: u32)
    ensures
        r == 2u32,
{
    2
}

pub open spec fn test_adf_toks(p: TestAdfParams) -> Seq<Seq<char>> {
    seq!["test"@, "adf"@, p.data@] + flag_u("--column"@, p.column) + flag_s("--trend"@, p.trend@)
        + opt_u("--max-lags"@, p.max_lags)
}

/// With every defaulted field at its default and no lag cap, the
/// augmented-test vector holds each defaulted flag at its default value,
/// in the fixed order, with the machine-readable-output flag last.
pub proof fn lemma_test_adf_defaults(p: TestAdfParams)
    requires
        p.column == 1u32,
        p.max_lags is None,
        p.trend@ == "constant"@,
    ensures
        with_format(test_adf_toks(p)) == seq![
            "test"@,
            "adf"@,
            p.data@,
            "--column"@,
            "1"@,
            "--trend"@,
            "constant"@,
            "--format=json"@,
        ],
{
    crate::digits::lemma_dec_str_values();
    reveal_strlit("1");
    assert("1"@ =~= seq!['1']);
    assert(with_format(test_adf_toks(p)) =~= seq![
        "test"@,
        "adf"@,
        p.data@,
        "--column"@,
        "1"@,
        "--trend"@,
        "constant"@,
        "--format=json"@,
    ]);
}

impl TestAdfParams {
    pub fn args(&self) -> (r: Vec<String>)
        ensures
            r.deep_view() == test_adf_toks(*self),
    {
        let mut b = ArgBuf::new();
        b.lit("test");
        b.lit("adf");
        b.arg(&self.data);
        b.opt_num("--column", self.column);
        b.opt_str("--trend", &self.trend);
        b.opt_num_if("--max-lags", &self.max_lags);
        let r = b.into_vec();
        proof {
            assert(r.deep_view() =~= test_adf_toks(*self));
        }
        r
    }
}

pub open spec fn test_kpss_toks(p: TestKpssParams) -> Seq<Seq<char>> {
    seq!["test"@, "kpss"@, p.data@] + flag_u("--column"@, p.column) + flag_s("--trend"@, p.trend@)
}

impl TestKpssParams {
    pub fn args(&self) -> (r: Vec<String>)
        ensures
            r.deep_view() == test_kpss_toks(*self),
    {
        let mut b = ArgBuf::new();
        b.lit("test");
        b.lit("kpss");
        b.arg(&self.data);
        b.opt_num("--column", self.column);
        b.opt_str("--trend", &self.trend);
        let r = b.into_vec();
        proof {
            assert(r.deep_view() =~= test_kpss_toks(*self));
        }
        r
    }
}

pub open spec fn test_pp_toks(p: TestPpParams) -> Seq<Seq<char>> {
    seq!["test"@, "pp"@, p.data@] + flag_u("--column"@, p.column) + flag_s("--trend"@, p.trend@)
}

impl TestPpParams {
    pub fn args(&self) -> (r: Vec<String>)
        ensures
            r.deep_view() == test_pp_toks(*self),
    {
        let mut b = ArgBuf::new();
        b.lit("test");
        b.lit("pp");
        b.arg(&self.data);
        b.opt_num("--column", self.column);
        b.opt_str("--trend", &self.trend);
        let r = b.into_vec();
        proof {
            assert(r.deep_view() =~= test_pp_toks(*self));
        }
        r
    }
}

pub open spec fn test_za_toks(p: TestZaParams) -> Seq<Seq<char>> {
    seq!["test"@, "za"@, p.data@] + flag_u("--column"@, p.column) + flag_s("--trend"@, p.trend@)
        + flag_s("--trim"@, p.trim@)
}

impl TestZaParams {
    pub fn args(&self) -> (r: Vec<String>)
        ensures
            r.deep_view() == test_za_toks(*self),
    {
        let mut b = ArgBuf::new();
        b.lit("test");
        b.lit("za");
        b.arg(&self.data);
        b.opt_num("--column", self.column);
        b.opt_str("--trend", &self.trend);
        b.opt_str("--trim", &self.trim);
        let r = b.into_vec();
        proof {
            assert(r.deep_view() =~= test_za_toks(*self));
        }
        r
    }
}

pub open spec fn test_np_toks(p: TestNpParams) -> Seq<Seq<char>> {
    seq!["test"@, "np"@, p.data@] + flag_u("--column"@, p.column) + flag_s("--trend"@, p.trend@)
}

impl TestNpParams {
    pub fn args(&self) -> (r: Vec<String>)
        ensures
            r.deep_view() == test_np_toks(*self),
    {
        let mut b = ArgBuf::new();
        b.lit("test");
        b.lit("np");
        b.arg(&self.data);
        b.opt_num("--column", self.column);
        b.opt_str("--trend", &self.trend);
        let r = b.into_vec();
        proof {
            assert(r.deep_view() =~= test_np_toks(*self));
        }
        r
    }
}

pub open spec fn test_johansen_toks(p: TestJohansenParams) -> Seq<Seq<char>> {
    seq!["test"@, "johansen"@, p.data@] + flag_u("--lags"@, p.lags) + flag_s("--trend"@, p.trend@)
}

impl TestJohansenParams {
    pub fn args(&self) -> (r: Vec<String>)
        ensures
            r.deep_view() == test_johansen_toks(*self),
    {
        let mut b = ArgBuf::new();
        b.lit("test");
        b.lit("johansen");
        b.arg(&self.data);
        b.opt_num("--lags", self.lags);
        b.opt_str("--trend", &self.trend);
        let r = b.into_vec();
        proof {
            assert(r.deep_view() =~= test_johansen_toks(*self));
        }
        r
    }
}

} // verus!
