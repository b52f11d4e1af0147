use meltdown::{
    decode, decode_contact, decode_info, decode_license, decode_server, decode_server_var, encode,
    encode_server_var, lookup, parse, Contact, DecodeError, Document, Entity, Info, License, Server,
    ServerVar, Syntax, Tree,
};

fn fields(raw: &str, syntax: Syntax) -> Vec<(Tree, Tree)> {
    match parse(raw, syntax) {
        Some(Tree::Object(f)) => f,
        other => panic!("not a mapping: {:?}", other),
    }
}

const DOC_YAML: &str = "openapi: 3.0.0
info:
  title: foobar-api
  description: foobar
  termsOfService: https://foo.bar/terms
  version: v0.0.1
  contact:
    name: odra
    url: foo.bar
    email: foo@bar
  license:
    name: Apache-2.0
    url: https://www.apache.org/licenses/LICENSE-2.0.txt
servers:
  - url: foo.bar
    description: foobar
    variables:
      port:
        enum: ['8080', '8443']
        default: '8080'";

const DOC_JSON: &str = "{
   \"openapi\": \"3.0.0\",
   \"info\": {
      \"title\": \"foobar-api\",
      \"description\": \"foobar\",
      \"termsOfService\": \"https://foo.bar/terms\",
      \"version\": \"v0.0.1\",
      \"contact\": {
         \"name\": \"odra\",
         \"url\": \"foo.bar\",
         \"email\": \"foo@bar\"
      },
      \"license\": {
         \"name\": \"Apache-2.0\",
         \"url\": \"https://www.apache.org/licenses/LICENSE-2.0.txt\"
      }
   },
   \"servers\": [
      {
         \"url\": \"foo.bar\",
         \"description\": \"foobar\",
         \"variables\": {
            \"port\": {
               \"enum\": [
                  \"8080\",
                  \"8443\"
               ],
               \"default\": \"8080\"
            }
         }
      }
   ]
}";

fn check_full_document(o: Document) {
    let oi = o.info;
    let oc = oi.contact.unwrap();
    let ol = oi.license.unwrap();
    let os = o.servers;
    assert_eq!("3.0.0", o.openapi);
    assert_eq!("foobar-api", oi.title);
    assert_eq!("foobar", oi.description.unwrap());
    assert_eq!("https://foo.bar/terms", oi.terms_of_service.unwrap());
    assert_eq!("v0.0.1", oi.version);
    assert_eq!("odra", oc.name.unwrap());
    assert_eq!("foo.bar", oc.url.unwrap());
    assert_eq!("foo@bar", oc.email.unwrap());
    assert_eq!("Apache-2.0", ol.name);
    assert_eq!("https://www.apache.org/licenses/LICENSE-2.0.txt", ol.url.unwrap());
    assert_eq!(1, os.len());
    assert_eq!("foo.bar", &os[0].url);
    assert_eq!("foobar", os[0].description.as_ref().unwrap());
    assert_eq!("8080", os[0].variable("port").unwrap().default);
    assert_eq!(vec!["8080".to_owned(), "8443".to_owned()], os[0].variable("port").unwrap().values.clone().unwrap());
}

#[test]
fn test_document_yaml() {
    check_full_document(decode(DOC_YAML, Syntax::Yaml).unwrap());
}

#[test]
fn test_document_json() {
    check_full_document(decode(DOC_JSON, Syntax::Json).unwrap());
}

#[test]
fn test_contact_yaml() {
    let o: Contact = decode_contact(&fields("name: odra\nurl: foo.bar\nemail: foo@bar", Syntax::Yaml)).unwrap();
    assert_eq!("odra", o.name.unwrap());
    assert_eq!("foo.bar", o.url.unwrap());
    assert_eq!("foo@bar", o.email.unwrap());
}

#[test]
fn test_contact_yaml_partial() {
    let o: Contact = decode_contact(&fields("name: odra\nemail: foo@bar", Syntax::Yaml)).unwrap();
    assert_eq!("odra", o.name.unwrap());
    assert_eq!(true, o.url.is_none());
    assert_eq!("foo@bar", o.email.unwrap());
}

#[test]
fn test_contact_json() {
    let raw = "{\n    \"name\": \"odra\",\n    \"url\": \"foo.bar\",\n    \"email\": \"foo@bar\"\n}";
    let o: Contact = decode_contact(&fields(raw, Syntax::Json)).unwrap();
    assert_eq!("odra", o.name.unwrap());
    assert_eq!("foo.bar", o.url.unwrap());
    assert_eq!("foo@bar", o.email.unwrap());
}

#[test]
fn test_contact_json_partial() {
    let raw = "{\n    \"name\": \"odra\",\n    \"url\": \"foo.bar\"\n}";
    let o: Contact = decode_contact(&fields(raw, Syntax::Json)).unwrap();
    assert_eq!("odra", o.name.unwrap());
    assert_eq!("foo.bar", o.url.unwrap());
    assert_eq!(true, o.email.is_none());
}

const INFO_YAML: &str = "title: foobar-api
description: foobar
termsOfService: https://foo.bar/terms
version: v0.0.1
contact:
    name: odra
    url: foo.bar
    email: foo@bar
license:
    name: Apache-2.0
    url: https://www.apache.org/licenses/LICENSE-2.0.txt";

const INFO_JSON: &str = "{
    \"title\": \"foobar-api\",
    \"description\": \"foobar\",
    \"termsOfService\": \"https://foo.bar/terms\",
    \"version\": \"v0.0.1\",
    \"contact\": {
        \"name\": \"odra\",
        \"url\": \"foo.bar\",
        \"email\": \"foo@bar\"
    },
    \"license\": {
        \"name\": \"Apache-2.0\",
        \"url\": \"https://www.apache.org/licenses/LICENSE-2.0.txt\"
    }
}";

fn check_full_info(o: Info) {
    let oc = o.contact.unwrap();
    let ol = o.license.unwrap();
    assert_eq!("foobar-api", o.title);
    assert_eq!("foobar", o.description.unwrap());
    assert_eq!("https://foo.bar/terms", o.terms_of_service.unwrap());
    assert_eq!("v0.0.1", o.version);
    assert_eq!("odra", oc.name.unwrap());
    assert_eq!("foo.bar", oc.url.unwrap());
    assert_eq!("foo@bar", oc.email.unwrap());
    assert_eq!("Apache-2.0", ol.name);
    assert_eq!("https://www.apache.org/licenses/LICENSE-2.0.txt", ol.url.unwrap());
}

fn check_partial_info(o: Info) {
    assert_eq!("foobar-api", o.title);
    assert_eq!("foobar", o.description.unwrap());
    assert_eq!("https://foo.bar/terms", o.terms_of_service.unwrap());
    assert_eq!("v0.0.1", o.version);
    assert_eq!(true, o.contact.is_none());
    assert_eq!(true, o.license.is_none());
}

#[test]
fn test_info_from_yaml() {
    check_full_info(decode_info(&fields(INFO_YAML, Syntax::Yaml)).unwrap());
}

#[test]
fn test_info_from_yaml_partial() {
    let raw = "title: foobar-api\ndescription: foobar\ntermsOfService: https://foo.bar/terms\nversion: v0.0.1";
    check_partial_info(decode_info(&fields(raw, Syntax::Yaml)).unwrap());
}

#[test]
fn test_info_from_json() {
    check_full_info(decode_info(&fields(INFO_JSON, Syntax::Json)).unwrap());
}

#[test]
fn test_info_from_json_partial() {
    let raw = "{
    \"title\": \"foobar-api\",
    \"description\": \"foobar\",
    \"termsOfService\": \"https://foo.bar/terms\",
    \"version\": \"v0.0.1\"
}";
    check_partial_info(decode_info(&fields(raw, Syntax::Json)).unwrap());
}

#[test]
fn test_licence_yaml() {
    let o: License = decode_license(&fields("name: Apache-2.0\nurl: https://www.apache.org/licenses/LICENSE-2.0.txt", Syntax::Yaml)).unwrap();
    assert_eq!("Apache-2.0", o.name);
    assert_eq!("https://www.apache.org/licenses/LICENSE-2.0.txt", o.url.unwrap());
}

#[test]
fn test_licence_yaml_partial() {
    let o: License = decode_license(&fields("name: Apache-2.0", Syntax::Yaml)).unwrap();
    assert_eq!("Apache-2.0", o.name);
    assert_eq!(true, o.url.is_none());
}

#[test]
fn test_licence_json() {
    let raw = "{\n    \"name\": \"Apache-2.0\",\n    \"url\": \"https://www.apache.org/licenses/LICENSE-2.0.txt\"\n}";
    let o: License = decode_license(&fields(raw, Syntax::Json)).unwrap();
    assert_eq!("Apache-2.0", o.name);
    assert_eq!("https://www.apache.org/licenses/LICENSE-2.0.txt", o.url.unwrap());
}

#[test]
fn test_licence_json_partial() {
    let o: License = decode_license(&fields("{\n    \"name\": \"Apache-2.0\"\n}", Syntax::Json)).unwrap();
    assert_eq!("Apache-2.0", o.name);
    assert_eq!(true, o.url.is_none());
}

fn check_server(o: Server) {
    let v = o.variable("port").unwrap();
    let values = v.values.clone().unwrap();
    assert_eq!("foo.bar", o.url);
    assert_eq!("foobar", o.description.clone().unwrap());
    assert_eq!("8080", &v.default);
    assert_eq!(vec!["8080", "8443"], values);
}

#[test]
fn test_server_yaml() {
    let raw = "url: foo.bar
description: foobar
variables:
    port:
        enum: ['8080', '8443']
        default: '8080'";
    check_server(decode_server(&fields(raw, Syntax::Yaml)).unwrap());
}

#[test]
fn test_server_json() {
    let raw = "{
    \"url\": \"foo.bar\",
    \"description\": \"foobar\",
    \"variables\": {
        \"port\": {
            \"enum\": [\"8080\", \"8443\"],
            \"default\": \"8080\"
        }
    }
}";
    check_server(decode_server(&fields(raw, Syntax::Json)).unwrap());
}

#[test]
fn round_trip_through_both_syntaxes() {
    let d = decode(DOC_YAML, Syntax::Yaml).unwrap();
    for s in [Syntax::Json, Syntax::Yaml] {
        let text = encode(&d, s);
        assert_ne!(text, "");
        check_full_document(decode(&text, s).unwrap());
    }
}

#[test]
fn json_and_yaml_read_alike() {
    let a = encode(&decode(DOC_JSON, Syntax::Json).unwrap(), Syntax::Json);
    let b = encode(&decode(DOC_YAML, Syntax::Yaml).unwrap(), Syntax::Json);
    assert_eq!(a, b);
}

#[test]
fn missing_openapi_takes_default() {
    let d = decode("info:\n  title: t\n  version: v\nservers: []", Syntax::Yaml).unwrap();
    assert_eq!("3.0.0", d.openapi);
    assert_eq!(0, d.servers.len());
}

#[test]
fn info_with_title_and_version_only() {
    let o = decode_info(&fields("{\"title\": \"t\", \"version\": \"v\"}", Syntax::Json)).unwrap();
    assert_eq!("t", o.title);
    assert_eq!("v", o.version);
    assert!(o.description.is_none() && o.terms_of_service.is_none());
    assert!(o.contact.is_none() && o.license.is_none());
}

#[test]
fn license_without_name_fails() {
    match decode_license(&fields("url: x", Syntax::Yaml)) {
        Err(DecodeError::MissingOrInvalidField { entity, field }) => {
            assert_eq!(Entity::License, entity);
            assert_eq!("name", field);
        },
        other => panic!("unexpected {:?}", other),
    }
}

#[test]
fn server_var_enum_key_both_ways() {
    let v = decode_server_var(&fields("{\"enum\": [\"8080\",\"8443\"], \"default\": \"8080\"}", Syntax::Json)).unwrap();
    assert_eq!(vec!["8080".to_owned(), "8443".to_owned()], v.values.clone().unwrap());
    assert_eq!("8080", v.default);
    let t = encode_server_var(&v);
    match &t {
        Tree::Object(f) => {
            assert!(lookup(f, "enum").is_some());
            assert!(lookup(f, "values").is_none());
        },
        _ => panic!("not a mapping"),
    }
}

#[test]
fn end_to_end_yaml() {
    let raw = "openapi: 3.0.0
info:
  title: foobar-api
  version: v0.0.1
servers:
  - url: foo.bar
    variables:
      port:
        enum: ['8080', '8443']
        default: '8080'";
    let d = decode(raw, Syntax::Yaml).unwrap();
    assert_eq!("3.0.0", d.openapi);
    assert_eq!("foobar-api", d.info.title);
    assert!(d.info.description.is_none());
    assert_eq!(1, d.servers.len());
    assert_eq!("foo.bar", d.servers[0].url);
    assert_eq!("8080", d.servers[0].variable("port").unwrap().default);
}

#[test]
fn malformed_text_is_a_syntax_error() {
    assert!(matches!(decode("{\"openapi\": ", Syntax::Json), Err(DecodeError::SyntaxError)));
    assert!(matches!(decode("a: [b", Syntax::Yaml), Err(DecodeError::SyntaxError)));
}

#[test]
fn number_where_string_required_fails() {
    match decode("{\"info\": {\"title\": 5, \"version\": \"v\"}, \"servers\": []}", Syntax::Json) {
        Err(DecodeError::MissingOrInvalidField { entity, field }) => {
            assert_eq!(Entity::Info, entity);
            assert_eq!("title", field);
        },
        other => panic!("unexpected {:?}", other),
    }
}

#[test]
fn missing_info_and_non_mapping_document() {
    match decode("{\"servers\": []}", Syntax::Json) {
        Err(DecodeError::MissingOrInvalidField { entity, field }) => {
            assert_eq!(Entity::Document, entity);
            assert_eq!("info", field);
        },
        other => panic!("unexpected {:?}", other),
    }
    assert!(matches!(
        decode("[1]", Syntax::Json),
        Err(DecodeError::MissingOrInvalidField { entity: Entity::Document, .. })
    ));
}

#[test]
fn unknown_keys_are_ignored() {
    let o = decode_license(&fields("name: MIT\nextra: 1", Syntax::Yaml)).unwrap();
    assert_eq!("MIT", o.name);
    assert!(o.url.is_none());
}

#[test]
fn null_optional_is_absent() {
    let o = decode_contact(&fields("{\"name\": null, \"url\": \"u\"}", Syntax::Json)).unwrap();
    assert!(o.name.is_none());
    assert_eq!("u", o.url.unwrap());
}

#[test]
fn variable_lookup_of_unknown_name() {
    let s = Server { url: "u".to_owned(), description: None, variables: Some(vec![("port".to_owned(), ServerVar { values: None, default: "1".to_owned(), description: None })]) };
    assert!(s.variable("host").is_none());
    assert_eq!("1", s.variable("port").unwrap().default);
}

#[test]
fn repeated_variable_name_fails() {
    let port = Tree::Object(vec![(Tree::Str("default".to_owned()), Tree::Str("1".to_owned()))]);
    let port2 = Tree::Object(vec![(Tree::Str("default".to_owned()), Tree::Str("2".to_owned()))]);
    let vars = Tree::Object(vec![(Tree::Str("port".to_owned()), port), (Tree::Str("port".to_owned()), port2)]);
    let f = vec![(Tree::Str("url".to_owned()), Tree::Str("u".to_owned())), (Tree::Str("variables".to_owned()), vars)];
    match decode_server(&f) {
        Err(DecodeError::MissingOrInvalidField { entity, field }) => {
            assert_eq!(Entity::Server, entity);
            assert_eq!("variables", field);
        },
        other => panic!("unexpected {:?}", other),
    }
}
