//! Dataset-related engine operations: tabular import and preview.
//!
//! Parsing of non-plain-text tabular formats is delegated to the engine;
//! this module only builds the argument vectors for those calls.

use vstd::prelude::*;
use crate::args::{ArgBuf, flag_s, flag_u, with_format};

verus! {

pub open spec fn data_import_toks(path: Seq<char>) -> Seq<Seq<char>> {
    seq!["data"@, "import"@] + flag_s("--path"@, path)
}

/// Arguments of the engine's tabular-import operation.
pub fn data_import_args(path: &String) -> (r: Vec<String>)
    ensures
        r.deep_view() == data_import_toks(path@),
{
    let mut b = ArgBuf::new();
    b.lit("data");
    b.lit("import");
    b.opt_str("--path", path);
    let r = b.into_vec();
    proof {
        assert(r.deep_view() =~= data_import_toks(path@));
    }
    r
}

pub open spec fn data_preview_toks(path: Seq<char>, rows: Option<u32>) -> Seq<Seq<char>> {
    seq!["data"@, "preview"@] + flag_s("--path"@, path) + flag_u(
        "--rows"@,
        match rows {
            Option::Some(n) => n,
            Option::None => 100u32,
        },
    )
}

/// With the row count omitted, the preview vector asks for the default one
/// hundred rows, with the machine-readable-output flag last.
pub proof fn lemma_data_preview_defaults(path: Seq<char>)
    ensures
        with_format(data_preview_toks(path, Option::None)) == seq![
            "data"@,
            "preview"@,
            "--path"@,
            path,
            "--rows"@,
            "100"@,
            "--format=json"@,
        ],
{
    crate::digits::lemma_dec_str_values();
    reveal_strlit("100");
    assert("100"@ =~= seq!['1', '0', '0']);
    assert(with_format(data_preview_toks(path, Option::None)) =~= seq![
        "data"@,
        "preview"@,
        "--path"@,
        path,
        "--rows"@,
        "100"@,
        "--format=json"@,
    ]);
}

/// Arguments of the engine's preview operation; an absent row count falls
/// back to one hundred rows.
pub fn data_preview_args(path: &String, rows: Option<u32>) -> (r: Vec<String>)
    ensures
        r.deep_view() == data_preview_toks(path@, rows),
{
    let mut b = ArgBuf::new();
    b.lit("data");
    b.lit("preview");
    b.opt_str("--path", path);
    let n: u32 = match rows {
        Some(n) => n,
        None => 100,
    };
    b.opt_num("--rows", n);
    let r = b.into_vec();
    proof {
        assert(r.deep_view() =~= data_preview_toks(path@, rows));
    }
    r
}

} // verus!
