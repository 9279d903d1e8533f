//! Fixed-capacity string fields for struct declarations.
//!
//! An annotation such as `#[fixed(name = 8, code = 4, typ = MyFixed)]` names
//! fields of a struct and a capacity for each. Every named field whose type is
//! the growable `String` is rewritten to the fixed-capacity type
//! `MyFixed::<capacity>` (`ArrayString::<capacity>` when no `typ` is given);
//! every other part of the declaration is carried through unchanged.
//!
//! [`args`] reads the annotation's argument tokens into an [`Args`]
//! configuration, and [`rewrite`] folds that configuration over a struct.
use vstd::prelude::*;

pub mod args;
pub mod rewrite;

pub use args::{read_entry, Args, ArgsError, Assignment, Token};
pub use rewrite::{Field, FieldType, StructDecl};

use args::parse_spec;
use rewrite::folded_struct;

verus! {

/// Replaces one or more growable string fields of `input` with a fixed-capacity
/// equivalent.
///
/// `args` is the annotation's argument list: `field = length` entries and,
/// optionally, `typ = MyType` to use another type for the replacement. A
/// malformed list rejects the whole declaration.
pub fn fixed<S>(args: &Vec<Token>, input: StructDecl<S>) -> (r: Result<StructDecl<S>, ArgsError>)
    ensures
        match parse_spec(args@) {
            Ok(a) => r matches Ok(out) && folded_struct(a, input, out),
            Err(e) => r == Err::<StructDecl<S>, ArgsError>(e),
        },
{
    match Args::parse(args) {
        Ok(config) => Ok(config.fold_struct(input)),
        Err(e) => Err(e),
    }
}

} // verus!
