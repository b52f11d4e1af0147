use vstd::prelude::*;

verus! {

/// Contact details of the people behind an API; any subset of the fields may be absent.
#[derive(Clone, Debug)]
pub struct Contact {
    pub name: Option<String>,
    pub url: Option<String>,
    pub email: Option<String>,
}

/// The license an API is published under.
#[derive(Clone, Debug)]
pub struct License {
    pub name: String,
    pub url: Option<String>,
}

/// The metadata block of a document.
#[derive(Clone, Debug)]
pub struct Info {
    pub title: String,
    pub description: Option<String>,
    pub terms_of_service: Option<String>,
    pub version: String,
    pub contact: Option<Contact>,
    pub license: Option<License>,
}

/// A variable of a server URL template.
#[derive(Clone, Debug)]
pub struct ServerVar {
    pub values: Option<Vec<String>>,
    pub default: String,
    pub description: Option<String>,
}

/// A server an API is reachable on. `variables` holds named entries in input order.
#[derive(Clone, Debug)]
pub struct Server {
    pub url: String,
    pub description: Option<String>,
    pub variables: Option<Vec<(String, ServerVar)>>,
}

/// The root of an API description.
#[derive(Clone, Debug)]
pub struct Document {
    pub openapi: String,
    pub info: Info,
    pub servers: Vec<Server>,
}

/// What a `Contact` holds, as mathematical values.
pub struct ContactV {
    pub name: Option<Seq<char>>,
    pub url: Option<Seq<char>>,
    pub email: Option<Seq<char>>,
}

/// What a `License` holds, as mathematical values.
pub struct LicenseV {
    pub name: Seq<char>,
    pub url: Option<Seq<char>>,
}

/// What a `Info` holds, as mathematical values.
pub struct InfoV {
    pub title: Seq<char>,
    pub description: Option<Seq<char>>,
    pub terms_of_service: Option<Seq<char>>,
    pub version: Seq<char>,
    pub contact: Option<ContactV>,
    pub license: Option<LicenseV>,
}

/// What a `ServerVar` holds, as mathematical values.
pub struct ServerVarV {
    pub values: Option<Seq<Seq<char>>>,
    pub default: Seq<char>,
    pub description: Option<Seq<char>>,
}

/// What a `Server` holds, as mathematical values.
pub struct ServerV {
    pub url: Seq<char>,
    pub description: Option<Seq<char>>,
    pub variables: Option<Seq<(Seq<char>, ServerVarV)>>,
}

/// What a `Document` holds, as mathematical values.
pub struct DocumentV {
    pub openapi: Seq<char>,
    pub info: InfoV,
    pub servers: Seq<ServerV>,
}

pub open spec fn opt_str_view(o: Option<String>) -> Option<Seq<char>> {
    match o {
        Some(s) => Some(s@),
        None => None,
    }
}

pub open spec fn strs_view(v: Seq<String>) -> Seq<Seq<char>> {
    v.map_values(|s: String| s@)
}

pub open spec fn vars_view(v: Seq<(String, ServerVar)>) -> Seq<(Seq<char>, ServerVarV)> {
    v.map_values(|p: (String, ServerVar)| (p.0@, p.1@))
}

pub open spec fn servers_view(v: Seq<Server>) -> Seq<ServerV> {
    v.map_values(|s: Server| s@)
}

impl View for Contact {
    type V = ContactV;

    open spec fn view(&self) -> ContactV {
        ContactV {
            name: opt_str_view(self.name),
            url: opt_str_view(self.url),
            email: opt_str_view(self.email),
        }
    }
}

impl View for License {
    type V = LicenseV;

    open spec fn view(&self) -> LicenseV {
        LicenseV { name: self.name@, url: opt_str_view(self.url) }
    }
}

impl View for Info {
    type V = InfoV;

    open spec fn view(&self) -> InfoV {
        InfoV {
            title: self.title@,
            description: opt_str_view(self.description),
            terms_of_service: opt_str_view(self.terms_of_service),
            version: self.version@,
            contact: match self.contact {
                Some(c) => Some(c@),
                None => None,
            },
            license: match self.license {
                Some(l) => Some(l@),
                None => None,
            },
        }
    }
}

impl View for ServerVar {
    type V = ServerVarV;

    open spec fn view(&self) -> ServerVarV {
        ServerVarV {
            values: match self.values {
                Some(v) => Some(strs_view(v@)),
                None => None,
            },
            default: self.default@,
            description: opt_str_view(self.description),
        }
    }
}

impl View for Server {
    type V = ServerV;

    open spec fn view(&self) -> ServerV {
        ServerV {
            url: self.url@,
            description: opt_str_view(self.description),
            variables: match self.variables {
                Some(v) => Some(vars_view(v@)),
                None => None,
            },
        }
    }
}

impl View for Document {
    type V = DocumentV;

    open spec fn view(&self) -> DocumentV {
        DocumentV { openapi: self.openapi@, info: self.info@, servers: servers_view(self.servers@) }
    }
}

/// Whether some entry of `vars` is named `name`.
pub open spec fn has_name(vars: Seq<(Seq<char>, ServerVarV)>, name: Seq<char>) -> bool {
    exists|i: int| 0 <= i < vars.len() && vars[i].0 == name
}

/// No two entries of `vars` share a name.
pub open spec fn names_unique(vars: Seq<(Seq<char>, ServerVarV)>) -> bool {
    forall|i: int, j: int| 0 <= i < j < vars.len() ==> vars[i].0 != vars[j].0
}

impl Server {
    /// The server's variables are named uniquely.
    pub open spec fn wf(&self) -> bool {
        match self.variables {
            Some(v) => names_unique(vars_view(v@)),
            None => true,
        }
    }
}

impl Document {
    /// Every server of the document is well formed.
    pub open spec fn wf(&self) -> bool {
        forall|i: int| 0 <= i < self.servers@.len() ==> #[trigger] self.servers@[i].wf()
    }
}

/// The first entry of `vars` named `name`.
pub open spec fn spec_find_var(vars: Seq<(Seq<char>, ServerVarV)>, name: Seq<char>) -> Option<ServerVarV>
    decreases vars.len(),
{
    if vars.len() == 0 {
        None
    } else if vars[0].0 == name {
        Some(vars[0].1)
    } else {
        spec_find_var(vars.drop_first(), name)
    }
}

pub open spec fn opt_var_view(r: Option<&ServerVar>) -> Option<ServerVarV> {
    match r {
        Some(v) => Some(v@),
        None => None,
    }
}

impl Server {
    /// The variable of this server named `name`, if it has one.
    pub fn variable(&self, name: &str) -> (r: Option<&ServerVar>)
        ensures
            opt_var_view(r) == match self@.variables {
                None => None,
                Some(vs) => spec_find_var(vs, name@),
            },
    {
        match self.variables.as_ref() {
            None => None,
            Some(vars) => {
                assert(self@.variables == Some(vars_view(vars@)));
                let key = String::from_str(name);
                let mut i: usize = 0;
                assert(vars@.subrange(0, vars.len() as int) =~= vars@);
                while i < vars.len()
                    invariant
                        0 <= i <= vars.len(),
                        key@ == name@,
                        self@.variables == Some(vars_view(vars@)),
                        spec_find_var(vars_view(vars@), name@) == spec_find_var(
                            vars_view(vars@.subrange(i as int, vars.len() as int)),
                            name@,
                        ),
                    decreases vars.len() - i,
                {
                    assert(vars_view(vars@.subrange(i as int, vars.len() as int)).drop_first()
                        =~= vars_view(vars@.subrange(i + 1, vars.len() as int)));
                    assert(vars_view(vars@.subrange(i as int, vars.len() as int))[0]
                        == (vars@[i as int].0@, vars@[i as int].1@));
                    if vars[i].0.eq(&key) {
                        assert(spec_find_var(vars_view(vars@.subrange(i as int, vars.len() as int)), name@)
                            == Some(vars@[i as int].1@));
                        return Some(&vars[i].1);
                    }
                    i = i + 1;
                }
                assert(vars@.subrange(i as int, vars.len() as int) =~= Seq::<(String, ServerVar)>::empty());
                None
            },
        }
    }
}

} // verus!
