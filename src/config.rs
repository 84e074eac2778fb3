use vstd::prelude::*;

use crate::error::{not_found, Error};
use crate::upload::is_web_scheme;

verus! {

#[verifier::external_type_specification]
#[verifier::external_body]
pub struct ExIni(ini::Ini);

#[verifier::external_type_specification]
#[verifier::external_body]
pub struct ExProperties(ini::Properties);

/// What an INI document holds: for each section name, the keys of the
/// first section of that name, each with its first value.
pub uninterp spec fn ini_sections(doc: ini::Ini) -> Map<Seq<char>, Map<Seq<char>, Seq<char>>>;

/// What a section holds: each key with its first value.
pub uninterp spec fn ini_properties(props: ini::Properties) -> Map<Seq<char>, Seq<char>>;

/// Relies on `ini::Ini::section`, which returns the first section of the
/// given name.
#[verifier::external_body]
fn section<'a>(doc: &'a ini::Ini, name: &str) -> (r: Option<&'a ini::Properties>)
    ensures
        r is Some <==> ini_sections(*doc).contains_key(name@),
        r matches Some(p) ==> ini_properties(*p) == ini_sections(*doc)[name@],
{
    doc.section(Some(name))
}

/// Relies on `ini::Properties::get`, which returns the first value of the key.
#[verifier::external_body]
fn property(props: &ini::Properties, key: &str) -> (r: Option<String>)
    ensures
        r is Some <==> ini_properties(*props).contains_key(key@),
        r matches Some(v) ==> v@ == ini_properties(*props)[key@],
{
    props.get(key).map(|v| v.to_owned())
}

/// What the url crate makes of a text: the URL's serialization and its scheme.
pub uninterp spec fn parsed_url(s: Seq<char>) -> Option<(Seq<char>, Seq<char>)>;

/// Relies on `url::Url::parse`, and on `as_str` and `scheme` of the parsed
/// URL; an error is turned into its message.
#[verifier::external_body]
pub(crate) fn parse_url(s: &str) -> (r: Result<(String, String), String>)
    ensures
        r is Ok <==> parsed_url(s@) is Some,
        r matches Ok(u) ==> parsed_url(s@) == Some((u.0@, u.1@)),
{
    url::Url::parse(s).map(|u| (u.as_str().to_owned(), u.scheme().to_owned())).map_err(
        |e| e.to_string(),
    )
}

/// The value of `key` in section `sec`, if both are there.
pub open spec fn entry(doc: ini::Ini, sec: Seq<char>, key: Seq<char>) -> Option<Seq<char>> {
    let m = ini_sections(doc);
    if m.contains_key(sec) && m[sec].contains_key(key) {
        Some(m[sec][key])
    } else {
        None
    }
}

/// The host's entries of the tool's configuration.
pub struct HostEntries {
    /// The host's address, as written.
    pub ip: String,
    pub name: String,
}

/// The node's entries of the tool's configuration.
pub struct CkbEntries {
    pub service_name: String,
    pub bin_path: String,
    pub root_dir: String,
}

/// The object-storage entries of the tool's secret configuration.
pub struct QiniuSection {
    pub access_key: String,
    pub secret_key: String,
    pub bucket: String,
    /// The storage domain's URL, as the url crate writes it.
    pub domain: String,
    pub path_prefix: String,
}

/// The value of `key` in a section, or the error that names the absent
/// item `full` (the section's name, a dot and the key).
fn required(props: &ini::Properties, key: &str, full: &str) -> (r: Result<String, Error>)
    ensures
        r is Ok <==> ini_properties(*props).contains_key(key@),
        r matches Ok(v) ==> v@ == ini_properties(*props)[key@],
        r matches Err(e) ==> e is Cfg && e.detail() == not_found(full@),
{
    match property(props, key) {
        Some(v) => Ok(v),
        None => Err(Error::config_not_found(full)),
    }
}

/// Reads the `host` section: its `ip` and `name`, both required. The error
/// names the first absent item, in that order.
pub fn host_entries(doc: &ini::Ini) -> (r: Result<HostEntries, Error>)
    ensures
        r is Ok <==> (entry(*doc, "host"@, "ip"@) is Some && entry(*doc, "host"@, "name"@) is Some),
        r matches Ok(h) ==> h.ip@ == entry(*doc, "host"@, "ip"@)->0 && h.name@ == entry(
            *doc,
            "host"@,
            "name"@,
        )->0,
        r matches Err(e) ==> e is Cfg,
        !ini_sections(*doc).contains_key("host"@) ==> (r matches Err(e) && e.detail() == not_found(
            "host"@,
        )),
        ini_sections(*doc).contains_key("host"@) && entry(*doc, "host"@, "ip"@) is None ==> (r matches Err(
            e,
        ) && e.detail() == not_found("host.ip"@)),
        entry(*doc, "host"@, "ip"@) is Some && entry(*doc, "host"@, "name"@) is None ==> (r matches Err(
            e,
        ) && e.detail() == not_found("host.name"@)),
{
    let props = match section(doc, "host") {
        Some(p) => p,
        None => {
            return Err(Error::config_not_found("host"));
        },
    };
    let ip = required(props, "ip", "host.ip")?;
    let name = required(props, "name", "host.name")?;
    Ok(HostEntries { ip, name })
}

/// Reads the `ckb` section: `service_name`, `bin_path` and `root_dir`, all
/// required. The error names the first absent item, in that order.
pub fn ckb_entries(doc: &ini::Ini) -> (r: Result<CkbEntries, Error>)
    ensures
        r is Ok <==> (entry(*doc, "ckb"@, "service_name"@) is Some && entry(
            *doc,
            "ckb"@,
            "bin_path"@,
        ) is Some && entry(*doc, "ckb"@, "root_dir"@) is Some),
        r matches Ok(c) ==> c.service_name@ == entry(*doc, "ckb"@, "service_name"@)->0
            && c.bin_path@ == entry(*doc, "ckb"@, "bin_path"@)->0 && c.root_dir@ == entry(
            *doc,
            "ckb"@,
            "root_dir"@,
        )->0,
        r matches Err(e) ==> e is Cfg,
        !ini_sections(*doc).contains_key("ckb"@) ==> (r matches Err(e) && e.detail() == not_found(
            "ckb"@,
        )),
        ini_sections(*doc).contains_key("ckb"@) && entry(*doc, "ckb"@, "service_name"@) is None ==> (
        r matches Err(e) && e.detail() == not_found("ckb.service_name"@)),
        entry(*doc, "ckb"@, "service_name"@) is Some && entry(*doc, "ckb"@, "bin_path"@) is None ==> (
        r matches Err(e) && e.detail() == not_found("ckb.bin_path"@)),
        entry(*doc, "ckb"@, "service_name"@) is Some && entry(*doc, "ckb"@, "bin_path"@) is Some
            && entry(*doc, "ckb"@, "root_dir"@) is None ==> (r matches Err(e) && e.detail()
            == not_found("ckb.root_dir"@)),
{
    let props = match section(doc, "ckb") {
        Some(p) => p,
        None => {
            return Err(Error::config_not_found("ckb"));
        },
    };
    let service_name = required(props, "service_name", "ckb.service_name")?;
    let bin_path = required(props, "bin_path", "ckb.bin_path")?;
    let root_dir = required(props, "root_dir", "ckb.root_dir")?;
    Ok(CkbEntries { service_name, bin_path, root_dir })
}

/// Whether a storage domain is accepted: it parses as a URL whose scheme is
/// `http` or `https`.
pub open spec fn valid_domain(d: Seq<char>) -> bool {
    parsed_url(d) matches Some(u) && (u.1 == "http"@ || u.1 == "https"@)
}

/// The `qiniu` section's `domain` is there and is accepted.
pub open spec fn domain_entry_ok(doc: ini::Ini) -> bool {
    entry(doc, "qiniu"@, "domain"@) matches Some(d) && valid_domain(d)
}

/// The `qiniu` section's keys before `domain` are all there.
pub open spec fn qiniu_keys_before_domain(doc: ini::Ini) -> bool {
    entry(doc, "qiniu"@, "access_key"@) is Some && entry(doc, "qiniu"@, "secret_key"@) is Some
        && entry(doc, "qiniu"@, "bucket"@) is Some
}

/// Reads the `qiniu` section: the keys, the bucket, the storage domain
/// (an `http` or `https` URL) and the prefix of stored names, all required.
/// The error is for the first item, in that order, that is absent or, for
/// the domain, not accepted.
pub fn qiniu_section(doc: &ini::Ini) -> (r: Result<QiniuSection, Error>)
    ensures
        r is Ok <==> (qiniu_keys_before_domain(*doc) && domain_entry_ok(*doc) && entry(
            *doc,
            "qiniu"@,
            "path_prefix"@,
        ) is Some),
        r matches Ok(q) ==> q.access_key@ == entry(*doc, "qiniu"@, "access_key"@)->0
            && q.secret_key@ == entry(*doc, "qiniu"@, "secret_key"@)->0 && q.bucket@ == entry(
            *doc,
            "qiniu"@,
            "bucket"@,
        )->0 && q.domain@ == (parsed_url(entry(*doc, "qiniu"@, "domain"@)->0)->0).0
            && q.path_prefix@ == entry(*doc, "qiniu"@, "path_prefix"@)->0,
        r matches Err(e) ==> e is Cfg,
        !ini_sections(*doc).contains_key("qiniu"@) ==> (r matches Err(e) && e.detail() == not_found(
            "qiniu"@,
        )),
        ini_sections(*doc).contains_key("qiniu"@) && entry(*doc, "qiniu"@, "access_key"@) is None ==> (
        r matches Err(e) && e.detail() == not_found("qiniu.access_key"@)),
        entry(*doc, "qiniu"@, "access_key"@) is Some && entry(*doc, "qiniu"@, "secret_key"@) is None
            ==> (r matches Err(e) && e.detail() == not_found("qiniu.secret_key"@)),
        entry(*doc, "qiniu"@, "access_key"@) is Some && entry(*doc, "qiniu"@, "secret_key"@) is Some
            && entry(*doc, "qiniu"@, "bucket"@) is None ==> (r matches Err(e) && e.detail()
            == not_found("qiniu.bucket"@)),
        qiniu_keys_before_domain(*doc) && entry(*doc, "qiniu"@, "domain"@) is None ==> (r matches Err(
            e,
        ) && e.detail() == not_found("qiniu.domain"@)),
        qiniu_keys_before_domain(*doc) && entry(*doc, "qiniu"@, "domain"@) is Some && parsed_url(
            entry(*doc, "qiniu"@, "domain"@)->0,
        ) is None ==> (r matches Err(e) && "failed to parse [qiniu.domain] since "@.is_prefix_of(
            e.detail(),
        )),
        qiniu_keys_before_domain(*doc) && entry(*doc, "qiniu"@, "domain"@) is Some && parsed_url(
            entry(*doc, "qiniu"@, "domain"@)->0,
        ) is Some && !valid_domain(entry(*doc, "qiniu"@, "domain"@)->0) ==> (r matches Err(e)
            && e.detail() == "invalid [qiniu.domain], scheme should be \"http\" or \"https\""@),
        qiniu_keys_before_domain(*doc) && domain_entry_ok(*doc) && entry(
            *doc,
            "qiniu"@,
            "path_prefix"@,
        ) is None ==> (r matches Err(e) && e.detail() == not_found("qiniu.path_prefix"@)),
{
    let props = match section(doc, "qiniu") {
        Some(p) => p,
        None => {
            return Err(Error::config_not_found("qiniu"));
        },
    };
    let access_key = required(props, "access_key", "qiniu.access_key")?;
    let secret_key = required(props, "secret_key", "qiniu.secret_key")?;
    let bucket = required(props, "bucket", "qiniu.bucket")?;
    let domain_text = required(props, "domain", "qiniu.domain")?;
    let domain = match parse_url(domain_text.as_str()) {
        Ok(u) => {
            if !is_web_scheme(u.1.as_str()) {
                return Err(
                    Error::Cfg(
                        String::from_str(
                            "invalid [qiniu.domain], scheme should be \"http\" or \"https\"",
                        ),
                    ),
                );
            }
            u.0
        },
        Err(msg) => {
            let prefix = "failed to parse [qiniu.domain] since ";
            let detail = String::from_str(prefix).concat(msg.as_str());
            assert(detail@.subrange(0, prefix@.len() as int) =~= prefix@);
            return Err(Error::Cfg(detail));
        },
    };
    let path_prefix = required(props, "path_prefix", "qiniu.path_prefix")?;
    Ok(QiniuSection { access_key, secret_key, bucket, domain, path_prefix })
}

} // verus!
