//! The interface between the parser and a host that embeds it.

use vstd::prelude::*;

verus! {

/// What an embedding offers to its host. Source text goes in and text comes
/// out, so that the calls can cross a process or language boundary; how tokens
/// and trees are written out as text is up to the embedding.
pub trait Guest {
    /// The tokens of `source`, written out as text.
    fn get_tokens(source: String) -> String;

    /// The syntax tree of `source`, written out as text.
    fn get_ast(source: String) -> String;

    /// A greeting, by which a host can tell that the embedding is alive.
    fn hello_world() -> String;
}

} // verus!
