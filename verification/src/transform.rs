//! The rewriting pipeline: normalize the configuration, run the visitor
//! pass over the script, then the marker-erasure pass, and hand back the
//! rewritten script together with the collected property names.
//!
//! Parsing source text and printing the rewritten tree are the host's
//! business; this is everything in between.
use vstd::prelude::*;
use crate::ast::{Stmt, names_view, stmts_view};
use crate::config::Config;
use crate::eraser::{erase_stmts, erase_stmts_spec};
use crate::scope::BindThisVisit;
use crate::visitor::visit_stmts_spec;

verus! {

/// The ignored names an optional configuration brings.
pub open spec fn config_ignored(input_config: Option<Config>) -> Seq<Seq<char>> {
    match input_config {
        Some(c) => names_view(c.ignoreMap@),
        None => Seq::empty(),
    }
}

/// Rewrites a script: every receiver-rooted read is routed through the
/// tracking accessor, every one-argument probe call is erased, and the
/// property names read inside probe calls come back in encounter order,
/// duplicates preserved.
pub fn rewrite_script(script: Vec<Stmt>, input_config: Option<Config>) -> (r: (
    Vec<Stmt>,
    Vec<String>,
))
    ensures
        ({
            let visited = visit_stmts_spec(
                config_ignored(input_config),
                Map::empty(),
                stmts_view(script@),
            );
            &&& stmts_view(r.0@) == erase_stmts_spec(visited.0)
            &&& names_view(r.1@) == visited.1
        }),
{
    let config = crate::config::normalize_config(input_config);
    proof {
        assert(names_view(config.ignoreMap@) =~= config_ignored(input_config));
    }
    let mut visitor = BindThisVisit::new(config);
    let visited = visitor.visit_stmts(script);
    let erased = erase_stmts(visited);
    proof {
        assert(names_view(Seq::<String>::empty()) =~= Seq::<Seq<char>>::empty());
        assert(Seq::<Seq<char>>::empty() + visit_stmts_spec(
            config_ignored(input_config),
            Map::empty(),
            stmts_view(script@),
        ).1 =~= visit_stmts_spec(
            config_ignored(input_config),
            Map::empty(),
            stmts_view(script@),
        ).1);
    }
    (erased, visitor.cached_props)
}

} // verus!
