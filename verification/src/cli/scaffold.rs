//! Creating a new workload: its name, template and the files it starts with.
use vstd::prelude::*;
use crate::platform::{push_char};
use crate::text::chars_of;
use crate::text::str_eq;

verus! {

/// The text with each `-` replaced by `_`.
pub open spec fn underscored(s: Seq<char>) -> Seq<char> {
    s.map_values(|c: char| if c == '-' { '_' } else { c })
}

/// The text with each `-` replaced by `_`.
pub fn replace_dashes(s: &str) -> (r: String)
    ensures
        r@ == underscored(s@),
{
    let chars = chars_of(s);
    let mut out = String::new();
    let mut i: usize = 0;
    while i < chars.len()
        invariant
            i <= chars@.len(),
            chars@ == s@,
            out@ =~= underscored(chars@.take(i as int)),
        decreases chars@.len() - i,
    {
        let c = chars[i];
        push_char(&mut out, if c == '-' { '_' } else { c });
        i = i + 1;
    }
    assert(chars@.take(i as int) =~= s@);
    out
}

/// The name of a new workload: the name given, or for "." the name of the
/// current directory ("my-workload" when it has none).
pub open spec fn workload_name_for(arg: Seq<char>, dir_name: Option<Seq<char>>) -> Seq<char> {
    if arg == "."@ {
        match dir_name {
            Some(d) => d,
            None => "my-workload"@,
        }
    } else {
        arg
    }
}

/// The name of a new workload.
pub fn workload_name(arg: &str, dir_name: Option<&str>) -> (r: String)
    ensures
        r@ == workload_name_for(
            arg@,
            match dir_name {
                Some(d) => Some(d@),
                None => None,
            },
        ),
{
    if str_eq(arg, ".") {
        match dir_name {
            Some(d) => d.to_string(),
            None => "my-workload".to_string(),
        }
    } else {
        arg.to_string()
    }
}

/// The project templates.
#[derive(Debug, Clone, Copy, PartialEq, Eq, Structural)]
pub enum Template {
    /// A single handler answering `/hello`.
    Basic,
    /// A handler streaming its page in sections.
    Streaming,
}

/// The template with this name.
pub open spec fn template_named(name: Seq<char>) -> Option<Template> {
    if name == "basic"@ {
        Some(Template::Basic)
    } else if name == "streaming"@ {
        Some(Template::Streaming)
    } else {
        None
    }
}

/// The message for an unknown template.
pub open spec fn unknown_template_text(name: Seq<char>) -> Seq<char> {
    "Unknown template: "@ + name + ". Available: basic, streaming"@
}

/// The template with a name, or the message refusing it.
pub fn parse_template(name: &str) -> (r: Result<Template, String>)
    ensures
        match template_named(name@) {
            Some(t) => r == Ok::<Template, String>(t),
            None => r matches Err(m) && m@ == unknown_template_text(name@),
        },
{
    if str_eq(name, "basic") {
        Ok(Template::Basic)
    } else if str_eq(name, "streaming") {
        Ok(Template::Streaming)
    } else {
        let mut m = "Unknown template: ".to_string();
        m.append(name);
        m.append(". Available: basic, streaming");
        Err(m)
    }
}

/// The `Cargo.toml` of a new basic workload: a `cdylib` package named after the workload (dashes as underscores) depending on the Spin SDK, anyhow and serde.
pub open spec fn basic_cargo_toml_text(name: Seq<char>) -> Seq<char> {
    "[package]\nname = \""@ + underscored(name) + "\"\nversion = \"0.1.0\"\nedition = \"2021\"\n\n[lib]\ncrate-type = [\"cdylib\"]\n\n[dependencies]\nspin-sdk = \"5.0\"\nanyhow = \"1\"\nserde = { version = \"1\", features = [\"derive\"] }\nserde_json = \"1\"\n"@
}

/// The `Cargo.toml` of a new basic workload: a `cdylib` package named after the workload (dashes as underscores) depending on the Spin SDK, anyhow and serde.
pub fn basic_cargo_toml(name: &str) -> (r: String)
    ensures
        r@ == basic_cargo_toml_text(name@),
{
    let us = replace_dashes(name);
    let mut s = "[package]\nname = \"".to_string();
    s.append(us.as_str());
    s.append("\"\nversion = \"0.1.0\"\nedition = \"2021\"\n\n[lib]\ncrate-type = [\"cdylib\"]\n\n[dependencies]\nspin-sdk = \"5.0\"\nanyhow = \"1\"\nserde = { version = \"1\", features = [\"derive\"] }\nserde_json = \"1\"\n");
    s
}

/// The `spin.toml` of a new basic workload: the application and one component serving `/hello`.
pub open spec fn basic_spin_toml_text(name: Seq<char>) -> Seq<char> {
    "spin_manifest_version = 2\n\n[application]\nname = \""@ + name + "\"\nversion = \"0.1.0\"\nauthors = []\ndescription = \"An edge streaming SSR workload\"\n\n[[trigger.http]]\nroute = \"/hello\"\ncomponent = \""@ + name + "\"\n\n[component."@ + name + "]\nsource = \"target/wasm32-wasip1/release/"@ + underscored(name) + ".wasm\"\nallowed_outbound_hosts = [\"https://*\"]\n\n[component."@ + name + ".build]\ncommand = \"cargo build --target wasm32-wasip1 --release\"\n"@
}

/// The `spin.toml` of a new basic workload: the application and one component serving `/hello`.
pub fn basic_spin_toml(name: &str) -> (r: String)
    ensures
        r@ == basic_spin_toml_text(name@),
{
    let us = replace_dashes(name);
    let mut s = "spin_manifest_version = 2\n\n[application]\nname = \"".to_string();
    s.append(name);
    s.append("\"\nversion = \"0.1.0\"\nauthors = []\ndescription = \"An edge streaming SSR workload\"\n\n[[trigger.http]]\nroute = \"/hello\"\ncomponent = \"");
    s.append(name);
    s.append("\"\n\n[component.");
    s.append(name);
    s.append("]\nsource = \"target/wasm32-wasip1/release/");
    s.append(us.as_str());
    s.append(".wasm\"\nallowed_outbound_hosts = [\"https://*\"]\n\n[component.");
    s.append(name);
    s.append(".build]\ncommand = \"cargo build --target wasm32-wasip1 --release\"\n");
    s
}

/// The `Cargo.toml` of a new streaming workload: as the basic one, with `futures` added.
pub open spec fn streaming_cargo_toml_text(name: Seq<char>) -> Seq<char> {
    "[package]\nname = \""@ + underscored(name) + "\"\nversion = \"0.1.0\"\nedition = \"2021\"\n\n[lib]\ncrate-type = [\"cdylib\"]\n\n[dependencies]\nspin-sdk = \"5.0\"\nanyhow = \"1\"\nserde = { version = \"1\", features = [\"derive\"] }\nserde_json = \"1\"\nfutures = \"0.3\"\n"@
}

/// The `Cargo.toml` of a new streaming workload: as the basic one, with `futures` added.
pub fn streaming_cargo_toml(name: &str) -> (r: String)
    ensures
        r@ == streaming_cargo_toml_text(name@),
{
    let us = replace_dashes(name);
    let mut s = "[package]\nname = \"".to_string();
    s.append(us.as_str());
    s.append("\"\nversion = \"0.1.0\"\nedition = \"2021\"\n\n[lib]\ncrate-type = [\"cdylib\"]\n\n[dependencies]\nspin-sdk = \"5.0\"\nanyhow = \"1\"\nserde = { version = \"1\", features = [\"derive\"] }\nserde_json = \"1\"\nfutures = \"0.3\"\n");
    s
}

/// The `spin.toml` of a new streaming workload: the application and one component serving every path.
pub open spec fn streaming_spin_toml_text(name: Seq<char>) -> Seq<char> {
    "spin_manifest_version = 2\n\n[application]\nname = \""@ + name + "\"\nversion = \"0.1.0\"\ndescription = \"A streaming SSR workload\"\n\n[[trigger.http]]\nroute = \"/...\"\ncomponent = \""@ + name + "\"\n\n[component."@ + name + "]\nsource = \"target/wasm32-wasip1/release/"@ + underscored(name) + ".wasm\"\nallowed_outbound_hosts = [\"https://*\"]\n\n[component."@ + name + ".build]\ncommand = \"cargo build --target wasm32-wasip1 --release\"\n"@
}

/// The `spin.toml` of a new streaming workload: the application and one component serving every path.
pub fn streaming_spin_toml(name: &str) -> (r: String)
    ensures
        r@ == streaming_spin_toml_text(name@),
{
    let us = replace_dashes(name);
    let mut s = "spin_manifest_version = 2\n\n[application]\nname = \"".to_string();
    s.append(name);
    s.append("\"\nversion = \"0.1.0\"\ndescription = \"A streaming SSR workload\"\n\n[[trigger.http]]\nroute = \"/...\"\ncomponent = \"");
    s.append(name);
    s.append("\"\n\n[component.");
    s.append(name);
    s.append("]\nsource = \"target/wasm32-wasip1/release/");
    s.append(us.as_str());
    s.append(".wasm\"\nallowed_outbound_hosts = [\"https://*\"]\n\n[component.");
    s.append(name);
    s.append(".build]\ncommand = \"cargo build --target wasm32-wasip1 --release\"\n");
    s
}

} // verus!
