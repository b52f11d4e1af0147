use vstd::prelude::*;

pub mod codec;
pub mod encode;
pub mod laws;
pub mod model;
pub mod text;
pub mod tree;

pub use codec::{
    decode_contact, decode_document, decode_info, decode_license, decode_server, decode_server_var,
    DecodeError, Entity,
};
pub use encode::{
    encode_contact, encode_document, encode_info, encode_license, encode_server, encode_server_var,
};
pub use model::{Contact, Document, Info, License, Server, ServerVar};
pub use text::{decode, emit, encode, parse, Syntax};
pub use tree::{lookup, Tree};

verus! {

/// The version marker a document takes when its input names none.
pub open spec fn spec_default_openapi() -> Seq<char> {
    seq!['3', '.', '0', '.', '0']
}

/// The version marker a document takes when its input names none.
pub fn default_openapi() -> (r: String)
    ensures
        r@ == spec_default_openapi(),
{
    let r = String::from_str("3.0.0");
    proof {
        reveal_strlit("3.0.0");
        assert(r@ =~= spec_default_openapi());
    }
    r
}

} // verus!
