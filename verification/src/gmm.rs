//! Generalized-method-of-moments estimation: argument vector and defaults.

use vstd::prelude::*;
use crate::args::{ArgBuf, flag_s, nonempty_s, with_format};

verus! {

pub struct GmmEstimateParams {
    pub data: String,
    /// Path of the moment-condition configuration; empty means "absent".
    pub config: String,
    pub weighting: String,
}

pub fn default_weighting() -> (r: String)
    ensures
        r@ == "twostep"@,
{
    String::from_str("twostep")
}

pub open spec fn gmm_estimate_toks(p: GmmEstimateParams) -> Seq<Seq<char>> {
    seq!["gmm"@, "estimate"@, p.data@] + flag_s("--weighting"@, p.weighting@) + nonempty_s(
        "--config"@,
        p.config@,
    )
}

/// With the default weighting and no configuration path, the vector holds
/// the weighting flag at its default and no configuration tokens at all,
/// with the machine-readable-output flag last.
pub proof fn lemma_gmm_estimate_defaults(p: GmmEstimateParams)
    requires
        p.weighting@ == "twostep"@,
        p.config@ == ""@,
    ensures
        with_format(gmm_estimate_toks(p)) == seq![
            "gmm"@,
            "estimate"@,
            p.data@,
            "--weighting"@,
            "twostep"@,
            "--format=json"@,
        ],
{
    reveal_strlit("");
    assert(with_format(gmm_estimate_toks(p)) =~= seq![
        "gmm"@,
        "estimate"@,
        p.data@,
        "--weighting"@,
        "twostep"@,
        "--format=json"@,
    ]);
}

impl GmmEstimateParams {
    pub fn args(&self) -> (r: Vec<String>)
        ensures
            r.deep_view() == gmm_estimate_toks(*self),
    {
        let mut b = ArgBuf::new();
        b.lit("gmm");
        b.lit("estimate");
        b.arg(&self.data);
        b.opt_str("--weighting", &self.weighting);
        b.opt_str_nonempty("--config", &self.config);
        let r = b.into_vec();
        proof {
            assert(r.deep_view() =~= gmm_estimate_toks(*self));
        }
        r
    }
}

} // verus!
