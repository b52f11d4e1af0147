use vstd::prelude::*;

use crate::codec::{
    invalid, spec_decode_document, spec_decode_info, spec_decode_license, DecodeErrorV, Entity,
};
use crate::model::InfoV;
use crate::spec_default_openapi;
use crate::text::{json_tree_of, spec_decode_text, yaml_tree_of, Syntax};
use crate::tree::{spec_lookup, Tree};

verus! {

/// A JSON text and a YAML text that denote the same tree read as the same
/// document, or fail alike.
pub proof fn lemma_format_equivalence(json: Seq<char>, yaml: Seq<char>)
    requires
        json_tree_of(json) == yaml_tree_of(yaml),
    ensures
        spec_decode_text(json, Syntax::Json) == spec_decode_text(yaml, Syntax::Yaml),
{
}

/// A document whose input has no `openapi` key reads with the default
/// version marker.
pub proof fn lemma_default_openapi(t: Tree)
    requires
        t is Object,
        spec_lookup(t->Object_0@, "openapi"@) == None::<Tree>,
        spec_decode_document(t) is Ok,
    ensures
        spec_decode_document(t)->Ok_0.openapi == spec_default_openapi(),
{
}

/// An `Info` with a string `title` and `version` and none of the optional keys
/// reads with every optional field absent.
pub proof fn lemma_info_optional_fields(f: Seq<(Tree, Tree)>, title: Seq<char>, version: Seq<char>)
    requires
        spec_lookup(f, "title"@) matches Some(Tree::Str(s)) && s@ == title,
        spec_lookup(f, "version"@) matches Some(Tree::Str(s)) && s@ == version,
        spec_lookup(f, "description"@) == None::<Tree>,
        spec_lookup(f, "termsOfService"@) == None::<Tree>,
        spec_lookup(f, "contact"@) == None::<Tree>,
        spec_lookup(f, "license"@) == None::<Tree>,
    ensures
        spec_decode_info(f) == Ok::<_, DecodeErrorV>(
            InfoV {
                title,
                description: None,
                terms_of_service: None,
                version,
                contact: None,
                license: None,
            },
        ),
{
}

/// A `License` without a `name` key fails, naming that field.
pub proof fn lemma_license_needs_name(f: Seq<(Tree, Tree)>)
    requires
        spec_lookup(f, "name"@) == None::<Tree>,
    ensures
        spec_decode_license(f) == Err::<crate::model::LicenseV, _>(invalid(Entity::License, "name"@)),
{
}

} // verus!
