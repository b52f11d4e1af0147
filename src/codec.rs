use vstd::prelude::*;

use crate::model::{
    has_name, names_unique, opt_str_view, servers_view, strs_view, vars_view, Contact, ContactV, Document, DocumentV, Info, InfoV,
    License, LicenseV, Server, ServerV, ServerVar, ServerVarV,
};
use crate::tree::{Tree, lookup, opt_tree, spec_lookup};
use crate::{default_openapi, spec_default_openapi};

verus! {

/// The record kinds of a document, as named in decode errors.
#[derive(Clone, Copy, Debug, PartialEq, Eq, Structural)]
pub enum Entity {
    Document,
    Info,
    Contact,
    License,
    Server,
    ServerVar,
}

/// Why a document could not be read. `field` is the external key; an empty
/// one stands for the record itself.
#[derive(Clone, Debug)]
pub enum DecodeError {
    SyntaxError,
    MissingOrInvalidField { entity: Entity, field: String },
}

/// What a `DecodeError` holds, as mathematical values.
pub enum DecodeErrorV {
    SyntaxError,
    MissingOrInvalidField { entity: Entity, field: Seq<char> },
}

impl View for DecodeError {
    type V = DecodeErrorV;

    open spec fn view(&self) -> DecodeErrorV {
        match self {
            DecodeError::SyntaxError => DecodeErrorV::SyntaxError,
            DecodeError::MissingOrInvalidField { entity, field } => DecodeErrorV::MissingOrInvalidField {
                entity: *entity,
                field: field@,
            },
        }
    }
}

pub open spec fn invalid(entity: Entity, field: Seq<char>) -> DecodeErrorV {
    DecodeErrorV::MissingOrInvalidField { entity, field }
}

pub open spec fn res_view<T: View>(r: Result<T, DecodeError>) -> Result<T::V, DecodeErrorV> {
    match r {
        Ok(x) => Ok(x@),
        Err(e) => Err(e@),
    }
}

pub open spec fn res_opt_view<T: View>(r: Result<Option<T>, DecodeError>) -> Result<Option<T::V>, DecodeErrorV> {
    match r {
        Ok(Some(x)) => Ok(Some(x@)),
        Ok(None) => Ok(None),
        Err(e) => Err(e@),
    }
}

fn field_error(entity: Entity, field: &str) -> (r: DecodeError)
    ensures
        r@ == invalid(entity, field@),
{
    DecodeError::MissingOrInvalidField { entity, field: String::from_str(field) }
}

/// A required string: present and a string.
pub open spec fn spec_req_str(t: Option<Tree>) -> Option<Seq<char>> {
    match t {
        Some(Tree::Str(s)) => Some(s@),
        _ => None,
    }
}

/// An optional string: absent or null gives `Some(None)`; any other kind of value is invalid (`None`).
pub open spec fn spec_opt_str(t: Option<Tree>) -> Option<Option<Seq<char>>> {
    match t {
        None => Some(None),
        Some(Tree::Null) => Some(None),
        Some(Tree::Str(s)) => Some(Some(s@)),
        _ => None,
    }
}

fn req_str(t: Option<&Tree>) -> (r: Option<String>)
    ensures
        opt_str_view(r) == spec_req_str(opt_tree(t)),
{
    match t {
        Some(Tree::Str(s)) => Some(s.clone()),
        _ => None,
    }
}

fn opt_str(t: Option<&Tree>) -> (r: Option<Option<String>>)
    ensures
        match r {
            None => spec_opt_str(opt_tree(t)) == None::<Option<Seq<char>>>,
            Some(o) => spec_opt_str(opt_tree(t)) == Some(opt_str_view(o)),
        },
{
    match t {
        None => Some(None),
        Some(Tree::Null) => Some(None),
        Some(Tree::Str(s)) => Some(Some(s.clone())),
        _ => None,
    }
}

pub open spec fn spec_decode_contact(f: Seq<(Tree, Tree)>) -> Result<ContactV, DecodeErrorV> {
    match spec_opt_str(spec_lookup(f, "name"@)) {
        None => Err(invalid(Entity::Contact, "name"@)),
        Some(name) => match spec_opt_str(spec_lookup(f, "url"@)) {
            None => Err(invalid(Entity::Contact, "url"@)),
            Some(url) => match spec_opt_str(spec_lookup(f, "email"@)) {
                None => Err(invalid(Entity::Contact, "email"@)),
                Some(email) => Ok(ContactV { name, url, email }),
            },
        },
    }
}

/// Reads a `Contact` from the entries of a mapping.
pub fn decode_contact(f: &Vec<(Tree, Tree)>) -> (r: Result<Contact, DecodeError>)
    ensures
        res_view(r) == spec_decode_contact(f@),
{
    let name = match opt_str(lookup(f, "name")) {
        None => return Err(field_error(Entity::Contact, "name")),
        Some(x) => x,
    };
    let url = match opt_str(lookup(f, "url")) {
        None => return Err(field_error(Entity::Contact, "url")),
        Some(x) => x,
    };
    let email = match opt_str(lookup(f, "email")) {
        None => return Err(field_error(Entity::Contact, "email")),
        Some(x) => x,
    };
    Ok(Contact { name, url, email })
}

pub open spec fn spec_decode_license(f: Seq<(Tree, Tree)>) -> Result<LicenseV, DecodeErrorV> {
    match spec_req_str(spec_lookup(f, "name"@)) {
        None => Err(invalid(Entity::License, "name"@)),
        Some(name) => match spec_opt_str(spec_lookup(f, "url"@)) {
            None => Err(invalid(Entity::License, "url"@)),
            Some(url) => Ok(LicenseV { name, url }),
        },
    }
}

/// Reads a `License` from the entries of a mapping.
pub fn decode_license(f: &Vec<(Tree, Tree)>) -> (r: Result<License, DecodeError>)
    ensures
        res_view(r) == spec_decode_license(f@),
{
    let name = match req_str(lookup(f, "name")) {
        None => return Err(field_error(Entity::License, "name")),
        Some(x) => x,
    };
    let url = match opt_str(lookup(f, "url")) {
        None => return Err(field_error(Entity::License, "url")),
        Some(x) => x,
    };
    Ok(License { name, url })
}

pub open spec fn spec_decode_opt_contact(t: Option<Tree>) -> Result<Option<ContactV>, DecodeErrorV> {
    match t {
        None => Ok(None),
        Some(Tree::Null) => Ok(None),
        Some(Tree::Object(g)) => match spec_decode_contact(g@) {
            Ok(c) => Ok(Some(c)),
            Err(e) => Err(e),
        },
        Some(_) => Err(invalid(Entity::Info, "contact"@)),
    }
}

pub open spec fn spec_decode_opt_license(t: Option<Tree>) -> Result<Option<LicenseV>, DecodeErrorV> {
    match t {
        None => Ok(None),
        Some(Tree::Null) => Ok(None),
        Some(Tree::Object(g)) => match spec_decode_license(g@) {
            Ok(l) => Ok(Some(l)),
            Err(e) => Err(e),
        },
        Some(_) => Err(invalid(Entity::Info, "license"@)),
    }
}

fn decode_opt_contact(t: Option<&Tree>) -> (r: Result<Option<Contact>, DecodeError>)
    ensures
        res_opt_view(r) == spec_decode_opt_contact(opt_tree(t)),
{
    match t {
        None => Ok(None),
        Some(Tree::Null) => Ok(None),
        Some(Tree::Object(g)) => match decode_contact(g) {
            Ok(c) => Ok(Some(c)),
            Err(e) => Err(e),
        },
        Some(_) => Err(field_error(Entity::Info, "contact")),
    }
}

fn decode_opt_license(t: Option<&Tree>) -> (r: Result<Option<License>, DecodeError>)
    ensures
        res_opt_view(r) == spec_decode_opt_license(opt_tree(t)),
{
    match t {
        None => Ok(None),
        Some(Tree::Null) => Ok(None),
        Some(Tree::Object(g)) => match decode_license(g) {
            Ok(l) => Ok(Some(l)),
            Err(e) => Err(e),
        },
        Some(_) => Err(field_error(Entity::Info, "license")),
    }
}

/// `Info` is read in declaration order; the first field that is missing or of
/// the wrong kind is reported. `terms_of_service` sits under `termsOfService`.
pub open spec fn spec_decode_info(f: Seq<(Tree, Tree)>) -> Result<InfoV, DecodeErrorV> {
    match spec_req_str(spec_lookup(f, "title"@)) {
        None => Err(invalid(Entity::Info, "title"@)),
        Some(title) => match spec_opt_str(spec_lookup(f, "description"@)) {
            None => Err(invalid(Entity::Info, "description"@)),
            Some(description) => match spec_opt_str(spec_lookup(f, "termsOfService"@)) {
                None => Err(invalid(Entity::Info, "termsOfService"@)),
                Some(terms_of_service) => match spec_req_str(spec_lookup(f, "version"@)) {
                    None => Err(invalid(Entity::Info, "version"@)),
                    Some(version) => match spec_decode_opt_contact(spec_lookup(f, "contact"@)) {
                        Err(e) => Err(e),
                        Ok(contact) => match spec_decode_opt_license(spec_lookup(f, "license"@)) {
                            Err(e) => Err(e),
                            Ok(license) => Ok(
                                InfoV { title, description, terms_of_service, version, contact, license },
                            ),
                        },
                    },
                },
            },
        },
    }
}

/// Reads an `Info` from the entries of a mapping.
pub fn decode_info(f: &Vec<(Tree, Tree)>) -> (r: Result<Info, DecodeError>)
    ensures
        res_view(r) == spec_decode_info(f@),
{
    let title = match req_str(lookup(f, "title")) {
        None => return Err(field_error(Entity::Info, "title")),
        Some(x) => x,
    };
    let description = match opt_str(lookup(f, "description")) {
        None => return Err(field_error(Entity::Info, "description")),
        Some(x) => x,
    };
    let terms_of_service = match opt_str(lookup(f, "termsOfService")) {
        None => return Err(field_error(Entity::Info, "termsOfService")),
        Some(x) => x,
    };
    let version = match req_str(lookup(f, "version")) {
        None => return Err(field_error(Entity::Info, "version")),
        Some(x) => x,
    };
    let contact = match decode_opt_contact(lookup(f, "contact")) {
        Err(e) => return Err(e),
        Ok(x) => x,
    };
    let license = match decode_opt_license(lookup(f, "license")) {
        Err(e) => return Err(e),
        Ok(x) => x,
    };
    Ok(Info { title, description, terms_of_service, version, contact, license })
}

/// A sequence of strings; `None` when some item is not a string.
pub open spec fn spec_decode_strs(items: Seq<Tree>) -> Option<Seq<Seq<char>>>
    decreases items.len(),
{
    if items.len() == 0 {
        Some(Seq::empty())
    } else {
        match spec_decode_strs(items.drop_last()) {
            None => None,
            Some(front) => match items.last() {
                Tree::Str(s) => Some(front.push(s@)),
                _ => None,
            },
        }
    }
}

proof fn lemma_strs_fail(items: Seq<Tree>, i: int, n: int)
    requires
        0 <= i <= n <= items.len(),
        spec_decode_strs(items.subrange(0, i)) == None::<Seq<Seq<char>>>,
    ensures
        spec_decode_strs(items.subrange(0, n)) == None::<Seq<Seq<char>>>,
    decreases n - i,
{
    if n > i {
        lemma_strs_fail(items, i, n - 1);
        assert(items.subrange(0, n).drop_last() =~= items.subrange(0, n - 1));
    }
}

fn decode_strs(items: &Vec<Tree>) -> (r: Option<Vec<String>>)
    ensures
        match r {
            None => spec_decode_strs(items@) == None::<Seq<Seq<char>>>,
            Some(v) => spec_decode_strs(items@) == Some(strs_view(v@)),
        },
{
    let mut out: Vec<String> = Vec::new();
    let mut i: usize = 0;
    assert(items@.subrange(0, 0) =~= Seq::<Tree>::empty());
    assert(strs_view(out@) =~= Seq::<Seq<char>>::empty());
    while i < items.len()
        invariant
            0 <= i <= items.len(),
            spec_decode_strs(items@.subrange(0, i as int)) == Some(strs_view(out@)),
        decreases items.len() - i,
    {
        assert(items@.subrange(0, i + 1).drop_last() =~= items@.subrange(0, i as int));
        assert(items@.subrange(0, i + 1).last() == items@[i as int]);
        match &items[i] {
            Tree::Str(s) => {
                let ghost prev = out@;
                out.push(s.clone());
                assert(strs_view(out@) =~= strs_view(prev).push(s@));
            },
            _ => {
                proof {
                    lemma_strs_fail(items@, i + 1, items.len() as int);
                    assert(items@.subrange(0, items.len() as int) =~= items@);
                }
                return None;
            },
        }
        i = i + 1;
    }
    assert(items@.subrange(0, items.len() as int) =~= items@);
    Some(out)
}

pub open spec fn spec_decode_enum(t: Option<Tree>) -> Option<Option<Seq<Seq<char>>>> {
    match t {
        None => Some(None),
        Some(Tree::Null) => Some(None),
        Some(Tree::Array(v)) => match spec_decode_strs(v@) {
            Some(x) => Some(Some(x)),
            None => None,
        },
        _ => None,
    }
}

/// `ServerVar` is read in declaration order; `values` sits under `enum`.
pub open spec fn spec_decode_server_var(f: Seq<(Tree, Tree)>) -> Result<ServerVarV, DecodeErrorV> {
    match spec_decode_enum(spec_lookup(f, "enum"@)) {
        None => Err(invalid(Entity::ServerVar, "enum"@)),
        Some(values) => match spec_req_str(spec_lookup(f, "default"@)) {
            None => Err(invalid(Entity::ServerVar, "default"@)),
            Some(default) => match spec_opt_str(spec_lookup(f, "description"@)) {
                None => Err(invalid(Entity::ServerVar, "description"@)),
                Some(description) => Ok(ServerVarV { values, default, description }),
            },
        },
    }
}

/// Reads a `ServerVar` from the entries of a mapping.
pub fn decode_server_var(f: &Vec<(Tree, Tree)>) -> (r: Result<ServerVar, DecodeError>)
    ensures
        res_view(r) == spec_decode_server_var(f@),
{
    let values = match lookup(f, "enum") {
        None => None,
        Some(Tree::Null) => None,
        Some(Tree::Array(v)) => match decode_strs(v) {
            Some(x) => Some(x),
            None => return Err(field_error(Entity::ServerVar, "enum")),
        },
        Some(_) => return Err(field_error(Entity::ServerVar, "enum")),
    };
    let default = match req_str(lookup(f, "default")) {
        None => return Err(field_error(Entity::ServerVar, "default")),
        Some(x) => x,
    };
    let description = match opt_str(lookup(f, "description")) {
        None => return Err(field_error(Entity::ServerVar, "description")),
        Some(x) => x,
    };
    Ok(ServerVar { values, default, description })
}

pub open spec fn spec_decode_var_entry(p: (Tree, Tree)) -> Result<(Seq<char>, ServerVarV), DecodeErrorV> {
    match p.0 {
        Tree::Str(k) => match p.1 {
            Tree::Object(g) => match spec_decode_server_var(g@) {
                Ok(v) => Ok((k@, v)),
                Err(e) => Err(e),
            },
            _ => Err(invalid(Entity::Server, "variables"@)),
        },
        _ => Err(invalid(Entity::Server, "variables"@)),
    }
}

/// The entries of `variables` in input order; the first entry that fails, or
/// that repeats an earlier name, is reported.
pub open spec fn spec_decode_vars(entries: Seq<(Tree, Tree)>) -> Result<Seq<(Seq<char>, ServerVarV)>, DecodeErrorV>
    decreases entries.len(),
{
    if entries.len() == 0 {
        Ok(Seq::empty())
    } else {
        match spec_decode_vars(entries.drop_last()) {
            Err(e) => Err(e),
            Ok(front) => match spec_decode_var_entry(entries.last()) {
                Err(e) => Err(e),
                Ok(x) => if has_name(front, x.0) {
                    Err(invalid(Entity::Server, "variables"@))
                } else {
                    Ok(front.push(x))
                },
            },
        }
    }
}

proof fn lemma_vars_fail(entries: Seq<(Tree, Tree)>, i: int, n: int)
    requires
        0 <= i <= n <= entries.len(),
        spec_decode_vars(entries.subrange(0, i)) is Err,
    ensures
        spec_decode_vars(entries.subrange(0, n)) == spec_decode_vars(entries.subrange(0, i)),
    decreases n - i,
{
    if n > i {
        lemma_vars_fail(entries, i, n - 1);
        assert(entries.subrange(0, n).drop_last() =~= entries.subrange(0, n - 1));
    }
}

fn name_taken(vars: &Vec<(String, ServerVar)>, k: &String) -> (r: bool)
    ensures
        r == has_name(vars_view(vars@), k@),
{
    let mut j: usize = 0;
    while j < vars.len()
        invariant
            0 <= j <= vars.len(),
            forall|jj: int| 0 <= jj < j ==> vars_view(vars@)[jj].0 != k@,
        decreases vars.len() - j,
    {
        if vars[j].0.eq(k) {
            assert(vars_view(vars@)[j as int].0 == k@);
            return true;
        }
        j = j + 1;
    }
    false
}

fn decode_vars(entries: &Vec<(Tree, Tree)>) -> (r: Result<Vec<(String, ServerVar)>, DecodeError>)
    ensures
        match r {
            Ok(v) => spec_decode_vars(entries@) == Ok::<_, DecodeErrorV>(vars_view(v@)) && names_unique(
                vars_view(v@),
            ),
            Err(e) => spec_decode_vars(entries@) == Err::<Seq<(Seq<char>, ServerVarV)>, _>(e@),
        },
{
    let mut out: Vec<(String, ServerVar)> = Vec::new();
    let mut i: usize = 0;
    assert(entries@.subrange(0, 0) =~= Seq::<(Tree, Tree)>::empty());
    assert(vars_view(out@) =~= Seq::<(Seq<char>, ServerVarV)>::empty());
    while i < entries.len()
        invariant
            0 <= i <= entries.len(),
            spec_decode_vars(entries@.subrange(0, i as int)) == Ok::<_, DecodeErrorV>(vars_view(out@)),
            names_unique(vars_view(out@)),
        decreases entries.len() - i,
    {
        assert(entries@.subrange(0, i + 1).drop_last() =~= entries@.subrange(0, i as int));
        assert(entries@.subrange(0, i + 1).last() == entries@[i as int]);
        let bad = match &entries[i].0 {
            Tree::Str(k) => match &entries[i].1 {
                Tree::Object(g) => match decode_server_var(g) {
                    Ok(v) => if name_taken(&out, k) {
                        Some(field_error(Entity::Server, "variables"))
                    } else {
                        let ghost prev = out@;
                        out.push((k.clone(), v));
                        assert(vars_view(out@) =~= vars_view(prev).push((k@, v@)));
                        None
                    },
                    Err(e) => Some(e),
                },
                _ => Some(field_error(Entity::Server, "variables")),
            },
            _ => Some(field_error(Entity::Server, "variables")),
        };
        if let Some(e) = bad {
            proof {
                lemma_vars_fail(entries@, i + 1, entries.len() as int);
                assert(entries@.subrange(0, entries.len() as int) =~= entries@);
            }
            return Err(e);
        }
        i = i + 1;
    }
    assert(entries@.subrange(0, entries.len() as int) =~= entries@);
    Ok(out)
}

pub open spec fn spec_decode_opt_vars(t: Option<Tree>) -> Result<Option<Seq<(Seq<char>, ServerVarV)>>, DecodeErrorV> {
    match t {
        None => Ok(None),
        Some(Tree::Null) => Ok(None),
        Some(Tree::Object(g)) => match spec_decode_vars(g@) {
            Ok(v) => Ok(Some(v)),
            Err(e) => Err(e),
        },
        Some(_) => Err(invalid(Entity::Server, "variables"@)),
    }
}

/// `Server` is read in declaration order.
pub open spec fn spec_decode_server(f: Seq<(Tree, Tree)>) -> Result<ServerV, DecodeErrorV> {
    match spec_req_str(spec_lookup(f, "url"@)) {
        None => Err(invalid(Entity::Server, "url"@)),
        Some(url) => match spec_opt_str(spec_lookup(f, "description"@)) {
            None => Err(invalid(Entity::Server, "description"@)),
            Some(description) => match spec_decode_opt_vars(spec_lookup(f, "variables"@)) {
                Err(e) => Err(e),
                Ok(variables) => Ok(ServerV { url, description, variables }),
            },
        },
    }
}

/// Reads a `Server` from the entries of a mapping.
pub fn decode_server(f: &Vec<(Tree, Tree)>) -> (r: Result<Server, DecodeError>)
    ensures
        res_view(r) == spec_decode_server(f@),
        r matches Ok(s) ==> s.wf(),
{
    let url = match req_str(lookup(f, "url")) {
        None => return Err(field_error(Entity::Server, "url")),
        Some(x) => x,
    };
    let description = match opt_str(lookup(f, "description")) {
        None => return Err(field_error(Entity::Server, "description")),
        Some(x) => x,
    };
    let variables = match lookup(f, "variables") {
        None => None,
        Some(Tree::Null) => None,
        Some(Tree::Object(g)) => match decode_vars(g) {
            Ok(v) => Some(v),
            Err(e) => return Err(e),
        },
        Some(_) => return Err(field_error(Entity::Server, "variables")),
    };
    Ok(Server { url, description, variables })
}

pub open spec fn spec_decode_server_item(t: Tree) -> Result<ServerV, DecodeErrorV> {
    match t {
        Tree::Object(g) => spec_decode_server(g@),
        _ => Err(invalid(Entity::Document, "servers"@)),
    }
}

/// The servers in input order; the first one that fails is reported.
pub open spec fn spec_decode_servers(items: Seq<Tree>) -> Result<Seq<ServerV>, DecodeErrorV>
    decreases items.len(),
{
    if items.len() == 0 {
        Ok(Seq::empty())
    } else {
        match spec_decode_servers(items.drop_last()) {
            Err(e) => Err(e),
            Ok(front) => match spec_decode_server_item(items.last()) {
                Err(e) => Err(e),
                Ok(x) => Ok(front.push(x)),
            },
        }
    }
}

proof fn lemma_servers_fail(items: Seq<Tree>, i: int, n: int)
    requires
        0 <= i <= n <= items.len(),
        spec_decode_servers(items.subrange(0, i)) is Err,
    ensures
        spec_decode_servers(items.subrange(0, n)) == spec_decode_servers(items.subrange(0, i)),
    decreases n - i,
{
    if n > i {
        lemma_servers_fail(items, i, n - 1);
        assert(items.subrange(0, n).drop_last() =~= items.subrange(0, n - 1));
    }
}

fn decode_servers(items: &Vec<Tree>) -> (r: Result<Vec<Server>, DecodeError>)
    ensures
        match r {
            Ok(v) => spec_decode_servers(items@) == Ok::<_, DecodeErrorV>(servers_view(v@)) && forall|
                j: int,
            |
                0 <= j < v@.len() ==> #[trigger] v@[j].wf(),
            Err(e) => spec_decode_servers(items@) == Err::<Seq<ServerV>, _>(e@),
        },
{
    let mut out: Vec<Server> = Vec::new();
    let mut i: usize = 0;
    assert(items@.subrange(0, 0) =~= Seq::<Tree>::empty());
    assert(servers_view(out@) =~= Seq::<ServerV>::empty());
    while i < items.len()
        invariant
            0 <= i <= items.len(),
            spec_decode_servers(items@.subrange(0, i as int)) == Ok::<_, DecodeErrorV>(servers_view(out@)),
            forall|j: int| 0 <= j < out@.len() ==> #[trigger] out@[j].wf(),
        decreases items.len() - i,
    {
        assert(items@.subrange(0, i + 1).drop_last() =~= items@.subrange(0, i as int));
        assert(items@.subrange(0, i + 1).last() == items@[i as int]);
        let bad = match &items[i] {
            Tree::Object(g) => match decode_server(g) {
                Ok(s) => {
                    let ghost prev = out@;
                    out.push(s);
                    assert(servers_view(out@) =~= servers_view(prev).push(s@));
                    None
                },
                Err(e) => Some(e),
            },
            _ => Some(field_error(Entity::Document, "servers")),
        };
        if let Some(e) = bad {
            proof {
                lemma_servers_fail(items@, i + 1, items.len() as int);
                assert(items@.subrange(0, items.len() as int) =~= items@);
            }
            return Err(e);
        }
        i = i + 1;
    }
    assert(items@.subrange(0, items.len() as int) =~= items@);
    Ok(out)
}

/// `openapi` takes the default version marker when its key is absent.
pub open spec fn spec_decode_openapi(t: Option<Tree>) -> Option<Seq<char>> {
    match t {
        None => Some(spec_default_openapi()),
        Some(Tree::Str(s)) => Some(s@),
        _ => None,
    }
}

/// How a keyed structure reads as a `Document`. Unknown keys are ignored.
pub open spec fn spec_decode_document(t: Tree) -> Result<DocumentV, DecodeErrorV> {
    match t {
        Tree::Object(f) => match spec_decode_openapi(spec_lookup(f@, "openapi"@)) {
            None => Err(invalid(Entity::Document, "openapi"@)),
            Some(openapi) => match spec_lookup(f@, "info"@) {
                Some(Tree::Object(g)) => match spec_decode_info(g@) {
                    Err(e) => Err(e),
                    Ok(info) => match spec_lookup(f@, "servers"@) {
                        Some(Tree::Array(v)) => match spec_decode_servers(v@) {
                            Err(e) => Err(e),
                            Ok(servers) => Ok(DocumentV { openapi, info, servers }),
                        },
                        _ => Err(invalid(Entity::Document, "servers"@)),
                    },
                },
                _ => Err(invalid(Entity::Document, "info"@)),
            },
        },
        _ => Err(invalid(Entity::Document, Seq::empty())),
    }
}

/// Reads a `Document` from a keyed structure.
pub fn decode_document(t: &Tree) -> (r: Result<Document, DecodeError>)
    ensures
        res_view(r) == spec_decode_document(*t),
        r matches Ok(d) ==> d.wf(),
{
    let f = match t {
        Tree::Object(f) => f,
        _ => {
            proof {
                reveal_strlit("");
                assert(""@ =~= Seq::<char>::empty());
            }
            return Err(field_error(Entity::Document, ""));
        },
    };
    let openapi = match lookup(f, "openapi") {
        None => default_openapi(),
        Some(Tree::Str(s)) => s.clone(),
        Some(_) => return Err(field_error(Entity::Document, "openapi")),
    };
    let info = match lookup(f, "info") {
        Some(Tree::Object(g)) => match decode_info(g) {
            Ok(i) => i,
            Err(e) => return Err(e),
        },
        _ => return Err(field_error(Entity::Document, "info")),
    };
    let servers = match lookup(f, "servers") {
        Some(Tree::Array(v)) => match decode_servers(v) {
            Ok(s) => s,
            Err(e) => return Err(e),
        },
        _ => return Err(field_error(Entity::Document, "servers")),
    };
    Ok(Document { openapi, info, servers })
}

} // verus!
