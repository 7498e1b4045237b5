//! Bindings between Qt and Rust, generated from the declaration of
//! objects with their properties and functions.
//!
//! The declarations are resolved into a [`configuration::Config`], from
//! which four texts are written: a C++ header and source, the Rust
//! interface, and a first Rust implementation for the author to fill in.
use crate::configuration::{Config, ConfigView, json};
use crate::configuration::resolution::{
    config_realizes, configurable, configuration_fits, failure_fits, post_process,
};
use crate::cpp::{cpp_text, header_text, write_cpp, write_header};
use crate::error::ConfigError;
use crate::manifest::{edition_given, Manifest};
use crate::rust::{
    Implementation, implementation_text, interface_text, keeps_implementation, write_implementation,
    write_interface,
};
use crate::util::snake_ready;
use crate::validity::config_ok;
use vstd::prelude::*;
use vstd::string::*;

pub mod configuration;
pub mod configuration_private;
pub mod cpp;
pub mod error;
pub mod manifest;
pub mod names;
pub mod rust;
pub mod text;
pub mod util;
pub mod validity;

verus! {

/// Makes a configuration of the declarations that were read from the
/// file `config_file`, and of the manifest beside them.
pub fn read_bindings_file(config_file: &str, json: json::Config, manifest: Manifest) -> (r: Result<
    Config,
    ConfigError,
>)
    ensures
        configuration_fits(r, config_file@, json@, manifest),
{
    post_process(config_file, json, manifest)
}

/// The texts that make up the bindings.
pub struct Bindings {
    /// The C++ header.
    pub header: String,
    /// The C++ source.
    pub cpp: String,
    /// The Rust interface.
    pub interface: String,
    /// The Rust implementation, unless one is kept.
    pub implementation: Implementation,
}

/// Whether the texts are the bindings for the configuration, with the
/// header in a file of the given name, and an implementation that
/// `exists` or does not.
pub open spec fn bindings_fit(
    bindings: Bindings,
    conf: ConfigView,
    header_file_name: Seq<char>,
    exists: bool,
) -> bool {
    &&& bindings.header@ == header_text(conf, header_file_name)
    &&& bindings.cpp@ == cpp_text(conf, header_file_name)
    &&& bindings.interface@ == interface_text(conf)
    &&& if keeps_implementation(conf, exists) {
        bindings.implementation is Kept
    } else {
        bindings.implementation matches Implementation::Written(text) && text@
            == implementation_text(conf)
    }
}

/// Generates the bindings for a configuration: nothing where code
/// cannot be written for it or names cannot be put in snake case.
pub fn generate_bindings(
    config: &Config,
    header_file_name: &str,
    implementation_exists: bool,
) -> (r: Option<Bindings>)
    ensures
        r is Some == (config_ok(config@) && snake_ready()),
        r matches Some(bindings) ==> bindings_fit(
            bindings,
            config@,
            header_file_name@,
            implementation_exists,
        ),
{
    let header = match write_header(config, header_file_name) {
        None => {
            return None;
        },
        Some(text) => text,
    };
    let cpp = match write_cpp(config, header_file_name) {
        None => {
            return None;
        },
        Some(text) => text,
    };
    let interface = match write_interface(config) {
        None => {
            return None;
        },
        Some(text) => text,
    };
    let implementation = match write_implementation(config, implementation_exists) {
        None => {
            return None;
        },
        Some(implementation) => implementation,
    };
    Some(Bindings { header, cpp, interface, implementation })
}

/// The same configuration gives the same bindings: the texts depend on
/// nothing but the configuration, the name of the header file and
/// whether an implementation exists.
pub proof fn lemma_bindings_determined(
    a: Bindings,
    b: Bindings,
    conf: ConfigView,
    header_file_name: Seq<char>,
    exists: bool,
)
    requires
        bindings_fit(a, conf, header_file_name, exists),
        bindings_fit(b, conf, header_file_name, exists),
    ensures
        a.header@ == b.header@,
        a.cpp@ == b.cpp@,
        a.interface@ == b.interface@,
        a.implementation is Kept == b.implementation is Kept,
        a.implementation matches Implementation::Written(x) ==> b.implementation matches Implementation::Written(
            y,
        ) && x@ == y@,
{
}

/// Why no bindings were generated.
pub enum Failure {
    /// No configuration could be made of the declarations and the
    /// manifest.
    Configuration(ConfigError),
    /// Names cannot be put in snake case.
    Generation,
}

/// The declarations with the order to overwrite an implementation, if
/// it is given.
pub open spec fn with_overwrite(json: json::ConfigView, overwrite: bool) -> json::ConfigView {
    json::ConfigView {
        cpp_file: json.cpp_file,
        objects: json.objects,
        rust: json.rust,
        overwrite_implementation: json.overwrite_implementation || overwrite,
    }
}

/// Generates the bindings from the declarations that were read from the
/// file `config_file`; an implementation is overwritten where the
/// declarations or `overwrite_implementation` say so.
pub fn generate_bindings_from_config_file(
    config_file: &str,
    json: json::Config,
    manifest: Manifest,
    overwrite_implementation: bool,
    header_file_name: &str,
    implementation_exists: bool,
) -> (r: Result<Bindings, Failure>)
    ensures
        match r {
            Ok(bindings) => configurable(json@.objects, manifest) && snake_ready() && exists|
                conf: ConfigView,
            |
                #![trigger bindings_fit(bindings, conf, header_file_name@, implementation_exists)]
                config_realizes(
                    conf,
                    config_file@,
                    with_overwrite(json@, overwrite_implementation),
                    edition_given(manifest)->0,
                ) && config_ok(conf) && bindings_fit(
                    bindings,
                    conf,
                    header_file_name@,
                    implementation_exists,
                ),
            Err(Failure::Configuration(e)) => !configurable(json@.objects, manifest)
                && failure_fits(e, json@.objects, manifest),
            Err(Failure::Generation) => configurable(json@.objects, manifest) && !snake_ready(),
        },
{
    let mut config = match read_bindings_file(config_file, json, manifest) {
        Err(e) => {
            return Err(Failure::Configuration(e));
        },
        Ok(config) => config,
    };
    if overwrite_implementation {
        config.overwrite_implementation = true;
    }
    match generate_bindings(&config, header_file_name, implementation_exists) {
        None => Err(Failure::Generation),
        Some(bindings) => {
            assert(config_realizes(
                config@,
                config_file@,
                with_overwrite(json@, overwrite_implementation),
                edition_given(manifest)->0,
            ));
            Ok(bindings)
        },
    }
}

} // verus!
