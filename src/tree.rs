use vstd::prelude::*;

verus! {

/// A parsed document before it is read as an API description: the keyed
/// structure that both text syntaxes share.
#[derive(Debug)]
pub enum Tree {
    Null,
    Bool(bool),
    Num(String),
    Str(String),
    Array(Vec<Tree>),
    Object(Vec<(Tree, Tree)>),
}

/// Whether `k` is the string key `key`.
pub open spec fn key_is(k: Tree, key: Seq<char>) -> bool {
    match k {
        Tree::Str(s) => s@ == key,
        _ => false,
    }
}

/// The value of the first entry of `fields` whose key is the string `key`.
pub open spec fn spec_lookup(fields: Seq<(Tree, Tree)>, key: Seq<char>) -> Option<Tree>
    decreases fields.len(),
{
    if fields.len() == 0 {
        None
    } else if key_is(fields[0].0, key) {
        Some(fields[0].1)
    } else {
        spec_lookup(fields.drop_first(), key)
    }
}

pub open spec fn opt_tree(r: Option<&Tree>) -> Option<Tree> {
    match r {
        Some(t) => Some(*t),
        None => None,
    }
}

/// Looking a key up after an entry was appended.
pub proof fn lemma_lookup_push(fields: Seq<(Tree, Tree)>, k: Tree, v: Tree, key: Seq<char>)
    ensures
        spec_lookup(fields.push((k, v)), key) == match spec_lookup(fields, key) {
            Some(x) => Some(x),
            None => if key_is(k, key) { Some(v) } else { None },
        },
    decreases fields.len(),
{
    reveal_with_fuel(spec_lookup, 2);
    assert(fields.push((k, v))[fields.len() as int] == (k, v));
    if fields.len() == 0 {
        assert(fields.push((k, v)).drop_first() =~= Seq::<(Tree, Tree)>::empty());
    } else {
        assert(fields.push((k, v))[0] == fields[0]);
        assert(fields.push((k, v)).drop_first() =~= fields.drop_first().push((k, v)));
        lemma_lookup_push(fields.drop_first(), k, v, key);
    }
}

/// The value under the string key `key` in `fields`, if any.
pub fn lookup<'a>(fields: &'a Vec<(Tree, Tree)>, key: &str) -> (r: Option<&'a Tree>)
    ensures
        opt_tree(r) == spec_lookup(fields@, key@),
{
    let k = String::from_str(key);
    let mut i: usize = 0;
    assert(fields@.subrange(0, fields.len() as int) =~= fields@);
    while i < fields.len()
        invariant
            0 <= i <= fields.len(),
            k@ == key@,
            spec_lookup(fields@, key@) == spec_lookup(fields@.subrange(i as int, fields.len() as int), key@),
        decreases fields.len() - i,
    {
        assert(fields@.subrange(i as int, fields.len() as int).drop_first()
            =~= fields@.subrange(i + 1, fields.len() as int));
        if let Tree::Str(s) = &fields[i].0 {
            if s.eq(&k) {
                return Some(&fields[i].1);
            }
        }
        i = i + 1;
    }
    None
}

} // verus!
