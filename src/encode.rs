use vstd::prelude::*;

use crate::codec::{
    spec_decode_contact, spec_decode_document, spec_decode_info, spec_decode_license,
    spec_decode_server, spec_decode_server_var, spec_decode_servers, spec_decode_strs,
    spec_decode_vars, DecodeErrorV,
};
use crate::model::{
    names_unique, servers_view, strs_view, vars_view, Contact, Document, Info, License, Server, ServerVar,
};
use crate::tree::{lemma_lookup_push, spec_lookup, Tree};

verus! {

/// Appends the entry `k: v` to a mapping's entries.
fn push_entry(f: &mut Vec<(Tree, Tree)>, k: &str, v: Tree)
    ensures
        forall|key: Seq<char>|
            #[trigger] spec_lookup(final(f)@, key) == match spec_lookup(old(f)@, key) {
                Some(x) => Some(x),
                None => if key == k@ { Some(v) } else { None },
            },
{
    let kt = Tree::Str(String::from_str(k));
    let ghost prev = f@;
    f.push((kt, v));
    assert forall|key: Seq<char>|
        #[trigger] spec_lookup(f@, key) == match spec_lookup(prev, key) {
            Some(x) => Some(x),
            None => if key == k@ { Some(v) } else { None },
        } by {
        lemma_lookup_push(prev, kt, v, key);
    }
}

fn str_tree(s: &String) -> (r: Tree)
    ensures
        r == Tree::Str(*s),
{
    Tree::Str(s.clone())
}

/// Writes a `Contact` as a keyed structure; absent fields are left out.
pub fn encode_contact(c: &Contact) -> (r: Tree)
    ensures
        r is Object,
        spec_decode_contact(r->Object_0@) == Ok::<_, DecodeErrorV>(c@),
{
    let mut f: Vec<(Tree, Tree)> = Vec::new();
    if let Some(x) = &c.name {
        push_entry(&mut f, "name", str_tree(x));
    }
    if let Some(x) = &c.url {
        push_entry(&mut f, "url", str_tree(x));
    }
    if let Some(x) = &c.email {
        push_entry(&mut f, "email", str_tree(x));
    }
    proof {
        reveal_strlit("name");
        reveal_strlit("url");
        reveal_strlit("email");
        assert("url"@.len() != "name"@.len() && "email"@.len() != "name"@.len() && "email"@.len() != "url"@.len());
        assert(spec_lookup(Seq::<(Tree, Tree)>::empty(), "name"@) == None::<Tree>);
        assert(spec_lookup(Seq::<(Tree, Tree)>::empty(), "url"@) == None::<Tree>);
        assert(spec_lookup(Seq::<(Tree, Tree)>::empty(), "email"@) == None::<Tree>);
    }
    Tree::Object(f)
}

/// Writes a `License` as a keyed structure; an absent `url` is left out.
pub fn encode_license(l: &License) -> (r: Tree)
    ensures
        r is Object,
        spec_decode_license(r->Object_0@) == Ok::<_, DecodeErrorV>(l@),
{
    let mut f: Vec<(Tree, Tree)> = Vec::new();
    push_entry(&mut f, "name", str_tree(&l.name));
    if let Some(x) = &l.url {
        push_entry(&mut f, "url", str_tree(x));
    }
    proof {
        reveal_strlit("name");
        reveal_strlit("url");
        assert("url"@.len() != "name"@.len());
        assert(spec_lookup(Seq::<(Tree, Tree)>::empty(), "url"@) == None::<Tree>);
    }
    Tree::Object(f)
}

/// Writes an `Info` as a keyed structure, `terms_of_service` under
/// `termsOfService`; absent fields are left out.
pub fn encode_info(i: &Info) -> (r: Tree)
    ensures
        r is Object,
        spec_decode_info(r->Object_0@) == Ok::<_, DecodeErrorV>(i@),
        (spec_lookup(r->Object_0@, "termsOfService"@) is Some) == (i.terms_of_service is Some),
        spec_lookup(r->Object_0@, "terms_of_service"@) == None::<Tree>,
{
    let mut f: Vec<(Tree, Tree)> = Vec::new();
    push_entry(&mut f, "title", str_tree(&i.title));
    if let Some(x) = &i.description {
        push_entry(&mut f, "description", str_tree(x));
    }
    if let Some(x) = &i.terms_of_service {
        push_entry(&mut f, "termsOfService", str_tree(x));
    }
    push_entry(&mut f, "version", str_tree(&i.version));
    if let Some(c) = &i.contact {
        push_entry(&mut f, "contact", encode_contact(c));
    }
    if let Some(l) = &i.license {
        push_entry(&mut f, "license", encode_license(l));
    }
    proof {
        reveal_strlit("title");
        reveal_strlit("description");
        reveal_strlit("termsOfService");
        reveal_strlit("version");
        reveal_strlit("contact");
        reveal_strlit("license");
        reveal_strlit("terms_of_service");
        assert(spec_lookup(Seq::<(Tree, Tree)>::empty(), "terms_of_service"@) == None::<Tree>);
        assert("terms_of_service"@.len() == 16 && "title"@.len() == 5 && "description"@.len() == 11 && "termsOfService"@.len() == 14);
        assert("version"@.len() == 7 && "contact"@.len() == 7 && "license"@.len() == 7);
        assert("version"@[0] != "contact"@[0] && "version"@[0] != "license"@[0] && "contact"@[0] != "license"@[0]);
        assert(spec_lookup(Seq::<(Tree, Tree)>::empty(), "title"@) == None::<Tree>);
        assert(spec_lookup(Seq::<(Tree, Tree)>::empty(), "description"@) == None::<Tree>);
        assert(spec_lookup(Seq::<(Tree, Tree)>::empty(), "termsOfService"@) == None::<Tree>);
        assert(spec_lookup(Seq::<(Tree, Tree)>::empty(), "version"@) == None::<Tree>);
        assert(spec_lookup(Seq::<(Tree, Tree)>::empty(), "contact"@) == None::<Tree>);
        assert(spec_lookup(Seq::<(Tree, Tree)>::empty(), "license"@) == None::<Tree>);
    }
    Tree::Object(f)
}

fn encode_strs(v: &Vec<String>) -> (r: Vec<Tree>)
    ensures
        spec_decode_strs(r@) == Some(strs_view(v@)),
{
    let mut out: Vec<Tree> = Vec::new();
    let mut i: usize = 0;
    assert(strs_view(v@.subrange(0, 0)) =~= Seq::<Seq<char>>::empty());
    while i < v.len()
        invariant
            0 <= i <= v.len(),
            spec_decode_strs(out@) == Some(strs_view(v@.subrange(0, i as int))),
        decreases v.len() - i,
    {
        let ghost prev = out@;
        out.push(str_tree(&v[i]));
        assert(out@.drop_last() =~= prev);
        assert(strs_view(v@.subrange(0, i + 1)) =~= strs_view(v@.subrange(0, i as int)).push(v@[i as int]@));
        i = i + 1;
    }
    assert(v@.subrange(0, v.len() as int) =~= v@);
    out
}

/// Writes a `ServerVar` as a keyed structure, `values` under `enum`;
/// absent fields are left out.
pub fn encode_server_var(sv: &ServerVar) -> (r: Tree)
    ensures
        r is Object,
        spec_decode_server_var(r->Object_0@) == Ok::<_, DecodeErrorV>(sv@),
        (spec_lookup(r->Object_0@, "enum"@) is Some) == (sv.values is Some),
        spec_lookup(r->Object_0@, "values"@) == None::<Tree>,
{
    let mut f: Vec<(Tree, Tree)> = Vec::new();
    if let Some(vs) = &sv.values {
        push_entry(&mut f, "enum", Tree::Array(encode_strs(vs)));
    }
    push_entry(&mut f, "default", str_tree(&sv.default));
    if let Some(x) = &sv.description {
        push_entry(&mut f, "description", str_tree(x));
    }
    proof {
        reveal_strlit("enum");
        reveal_strlit("default");
        reveal_strlit("description");
        reveal_strlit("values");
        assert(spec_lookup(Seq::<(Tree, Tree)>::empty(), "values"@) == None::<Tree>);
        assert("values"@.len() == 6 && "enum"@.len() == 4 && "default"@.len() == 7 && "description"@.len() == 11);
        assert(spec_lookup(Seq::<(Tree, Tree)>::empty(), "enum"@) == None::<Tree>);
        assert(spec_lookup(Seq::<(Tree, Tree)>::empty(), "default"@) == None::<Tree>);
        assert(spec_lookup(Seq::<(Tree, Tree)>::empty(), "description"@) == None::<Tree>);
    }
    Tree::Object(f)
}

fn encode_vars(vars: &Vec<(String, ServerVar)>) -> (r: Vec<(Tree, Tree)>)
    requires
        names_unique(vars_view(vars@)),
    ensures
        spec_decode_vars(r@) == Ok::<_, DecodeErrorV>(vars_view(vars@)),
{
    let mut out: Vec<(Tree, Tree)> = Vec::new();
    let mut i: usize = 0;
    assert(vars_view(vars@.subrange(0, 0)) =~= Seq::<(Seq<char>, crate::model::ServerVarV)>::empty());
    while i < vars.len()
        invariant
            0 <= i <= vars.len(),
            spec_decode_vars(out@) == Ok::<_, DecodeErrorV>(vars_view(vars@.subrange(0, i as int))),
            names_unique(vars_view(vars@)),
        decreases vars.len() - i,
    {
        proof {
            let front = vars_view(vars@.subrange(0, i as int));
            assert forall|ii: int| 0 <= ii < front.len() implies front[ii].0 != vars@[i as int].0@ by {
                assert(front[ii] == vars_view(vars@)[ii]);
                assert(vars_view(vars@)[i as int].0 == vars@[i as int].0@);
                assert(vars_view(vars@)[ii].0 != vars_view(vars@)[i as int].0);
            }
        }
        let ghost prev = out@;
        out.push((str_tree(&vars[i].0), encode_server_var(&vars[i].1)));
        assert(out@.drop_last() =~= prev);
        assert(vars_view(vars@.subrange(0, i + 1)) =~= vars_view(vars@.subrange(0, i as int)).push(
            (vars@[i as int].0@, vars@[i as int].1@),
        ));
        i = i + 1;
    }
    assert(vars@.subrange(0, vars.len() as int) =~= vars@);
    out
}

/// Writes a `Server` whose variables are named uniquely as a keyed
/// structure; absent fields are left out.
pub fn encode_server(s: &Server) -> (r: Tree)
    requires
        s.wf(),
    ensures
        r is Object,
        spec_decode_server(r->Object_0@) == Ok::<_, DecodeErrorV>(s@),
{
    let mut f: Vec<(Tree, Tree)> = Vec::new();
    push_entry(&mut f, "url", str_tree(&s.url));
    if let Some(x) = &s.description {
        push_entry(&mut f, "description", str_tree(x));
    }
    if let Some(vars) = &s.variables {
        push_entry(&mut f, "variables", Tree::Object(encode_vars(vars)));
    }
    proof {
        reveal_strlit("url");
        reveal_strlit("description");
        reveal_strlit("variables");
        assert("url"@.len() == 3 && "description"@.len() == 11 && "variables"@.len() == 9);
        assert(spec_lookup(Seq::<(Tree, Tree)>::empty(), "url"@) == None::<Tree>);
        assert(spec_lookup(Seq::<(Tree, Tree)>::empty(), "description"@) == None::<Tree>);
        assert(spec_lookup(Seq::<(Tree, Tree)>::empty(), "variables"@) == None::<Tree>);
    }
    Tree::Object(f)
}

fn encode_servers(v: &Vec<Server>) -> (r: Vec<Tree>)
    requires
        forall|j: int| 0 <= j < v@.len() ==> #[trigger] v@[j].wf(),
    ensures
        spec_decode_servers(r@) == Ok::<_, DecodeErrorV>(servers_view(v@)),
{
    let mut out: Vec<Tree> = Vec::new();
    let mut i: usize = 0;
    assert(servers_view(v@.subrange(0, 0)) =~= Seq::<crate::model::ServerV>::empty());
    while i < v.len()
        invariant
            0 <= i <= v.len(),
            spec_decode_servers(out@) == Ok::<_, DecodeErrorV>(servers_view(v@.subrange(0, i as int))),
            forall|j: int| 0 <= j < v@.len() ==> #[trigger] v@[j].wf(),
        decreases v.len() - i,
    {
        let ghost prev = out@;
        out.push(encode_server(&v[i]));
        assert(out@.drop_last() =~= prev);
        assert(servers_view(v@.subrange(0, i + 1)) =~= servers_view(v@.subrange(0, i as int)).push(v@[i as int]@));
        i = i + 1;
    }
    assert(v@.subrange(0, v.len() as int) =~= v@);
    out
}

/// Writes a well-formed `Document` as a keyed structure. `openapi` is always written;
/// absent optional fields are left out. Reading the result back gives `d`.
pub fn encode_document(d: &Document) -> (r: Tree)
    requires
        d.wf(),
    ensures
        r is Object,
        spec_decode_document(r) == Ok::<_, DecodeErrorV>(d@),
        spec_lookup(r->Object_0@, "openapi"@) == Some(Tree::Str(d.openapi)),
{
    let mut f: Vec<(Tree, Tree)> = Vec::new();
    push_entry(&mut f, "openapi", str_tree(&d.openapi));
    push_entry(&mut f, "info", encode_info(&d.info));
    push_entry(&mut f, "servers", Tree::Array(encode_servers(&d.servers)));
    proof {
        reveal_strlit("openapi");
        reveal_strlit("info");
        reveal_strlit("servers");
        assert("openapi"@[0] != "servers"@[0]);
        assert(spec_lookup(Seq::<(Tree, Tree)>::empty(), "openapi"@) == None::<Tree>);
        assert(spec_lookup(Seq::<(Tree, Tree)>::empty(), "info"@) == None::<Tree>);
        assert(spec_lookup(Seq::<(Tree, Tree)>::empty(), "servers"@) == None::<Tree>);
    }
    Tree::Object(f)
}

} // verus!
