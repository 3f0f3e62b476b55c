//! What the instance is created with: the identity of the application, the
//! validation layer, the extensions that a window surface and the diagnostics
//! need, and the severities that the diagnostics bridge listens to.
//!
//! The names are defaults, not fixtures: [`instance_config`] takes the layers
//! and extensions that the caller asks for, and [`default_instance_config`]
//! fills in the ones below.

use crate::bindings::{
    debug_report_extension_name, surface_extension_name, xlib_surface_extension_name,
};
use crate::diagnostics::{debug_report_flags, spec_debug_report_flags};
use vstd::prelude::*;

verus! {

/// The version of the graphics API that the application is written against:
/// its major number.
pub const API_VERSION_MAJOR: u32 = 1;

/// The version of the graphics API: its minor number.
pub const API_VERSION_MINOR: u32 = 0;

/// The version of the graphics API: its patch number.
pub const API_VERSION_PATCH: u32 = 36;

/// The identity that the application states of itself.
#[derive(Clone, Debug)]
pub struct ApplicationInfo {
    pub name: String,
    pub engine_name: String,
    pub application_version: u32,
    pub engine_version: u32,
    pub api_version: u32,
}

/// The mathematical content of an [`ApplicationInfo`].
pub struct ApplicationInfoView {
    pub name: Seq<char>,
    pub engine_name: Seq<char>,
    pub application_version: u32,
    pub engine_version: u32,
    pub api_version: u32,
}

impl View for ApplicationInfo {
    type V = ApplicationInfoView;

    open spec fn view(&self) -> ApplicationInfoView {
        ApplicationInfoView {
            name: self.name@,
            engine_name: self.engine_name@,
            application_version: self.application_version,
            engine_version: self.engine_version,
            api_version: self.api_version,
        }
    }
}

/// Everything that the creation of the instance, and the registration of the
/// diagnostics bridge right after it, is parameterized with.
#[derive(Clone, Debug)]
pub struct InstanceConfig {
    pub application: ApplicationInfo,
    pub layers: Vec<String>,
    pub extensions: Vec<String>,
    /// The severities that the diagnostics bridge is registered for.
    pub debug_report_flags: u32,
}

/// The mathematical content of an [`InstanceConfig`].
pub struct InstanceConfigView {
    pub application: ApplicationInfoView,
    pub layers: Seq<Seq<char>>,
    pub extensions: Seq<Seq<char>>,
    pub debug_report_flags: u32,
}

impl View for InstanceConfig {
    type V = InstanceConfigView;

    open spec fn view(&self) -> InstanceConfigView {
        InstanceConfigView {
            application: self.application@,
            layers: names_view(self.layers@),
            extensions: names_view(self.extensions@),
            debug_report_flags: self.debug_report_flags,
        }
    }
}

/// A list of names as the list of their texts.
pub open spec fn names_view(names: Seq<String>) -> Seq<Seq<char>> {
    Seq::new(names.len(), |i: int| names[i]@)
}

/// A version number in the packed form of the graphics API: the major number
/// from bit 22 up, the minor number from bit 12 up, the patch number below.
pub open spec fn spec_make_version(major: u32, minor: u32, patch: u32) -> u32 {
    (major << 22) | (minor << 12) | patch
}

/// Computes [`spec_make_version`]. A number too large for its field spills
/// into the fields above it, or is cut off at the top.
pub fn make_version(major: u32, minor: u32, patch: u32) -> (version: u32)
    ensures
        version == spec_make_version(major, minor, patch),
{
    (major << 22) | (minor << 12) | patch
}

/// Numbers that fit their fields can be read back from the packed form.
pub proof fn lemma_version_fields(major: u32, minor: u32, patch: u32)
    requires
        major < 0x400,
        minor < 0x400,
        patch < 0x1000,
    ensures
        spec_make_version(major, minor, patch) >> 22 == major,
        (spec_make_version(major, minor, patch) >> 12) & 0x3ff == minor,
        spec_make_version(major, minor, patch) & 0xfff == patch,
{
    assert(major < 0x400 && minor < 0x400 && patch < 0x1000 ==> (((major << 22) | (minor << 12)
        | patch) >> 22 == major && ((((major << 22) | (minor << 12) | patch) >> 12) & 0x3ff)
        == minor && (((major << 22) | (minor << 12) | patch) & 0xfff) == patch)) by (bit_vector);
}

/// The packed form of the API version that the application is written
/// against, 1.0.36.
pub open spec fn spec_api_version() -> u32 {
    spec_make_version(API_VERSION_MAJOR, API_VERSION_MINOR, API_VERSION_PATCH)
}

/// The packed API version as a number.
pub proof fn lemma_api_version_value()
    ensures
        spec_api_version() == 0x400024,
{
    assert(((1u32 << 22) | (0u32 << 12) | 36u32) == 0x400024) by (bit_vector);
}

/// Computes [`spec_api_version`], which comes to `0x400024`.
pub fn api_version() -> (version: u32)
    ensures
        version == spec_api_version(),
        version == 0x400024,
{
    proof {
        lemma_api_version_value();
    }
    make_version(API_VERSION_MAJOR, API_VERSION_MINOR, API_VERSION_PATCH)
}

/// The name under which the application and its engine present themselves.
pub open spec fn spec_application_name() -> Seq<char> {
    "Niagara-rs"@
}

/// The validation layer that is switched on by default.
pub open spec fn spec_validation_layers() -> Seq<Seq<char>> {
    seq!["VK_LAYER_LUNARG_standard_validation"@]
}

/// The instance extensions that are switched on by default: the base surface
/// extension, the extension that makes a surface of an Xlib window, and the
/// diagnostics extension, in this order.
pub open spec fn spec_extension_names() -> Seq<Seq<char>> {
    seq!["VK_KHR_surface"@, "VK_KHR_xlib_surface"@, "VK_EXT_debug_report"@]
}

/// Computes [`spec_validation_layers`].
pub fn validation_layers() -> (layers: Vec<String>)
    ensures
        names_view(layers@) == spec_validation_layers(),
{
    let mut layers: Vec<String> = Vec::new();
    layers.push("VK_LAYER_LUNARG_standard_validation".to_owned());
    assert(names_view(layers@) =~= spec_validation_layers());
    layers
}

/// Computes [`spec_extension_names`].
pub fn extension_names() -> (names: Vec<String>)
    ensures
        names_view(names@) == spec_extension_names(),
{
    let mut names: Vec<String> = Vec::new();
    names.push(surface_extension_name());
    names.push(xlib_surface_extension_name());
    names.push(debug_report_extension_name());
    assert(names_view(names@) =~= spec_extension_names());
    names
}

/// The configuration of an instance for an application of the given name,
/// with the given layers and extensions: the engine goes by the application's
/// name, both versions are zero, the API version is 1.0.36, and the
/// diagnostics bridge listens to errors, warnings and performance warnings.
pub open spec fn spec_instance_config(
    app_name: Seq<char>,
    layers: Seq<Seq<char>>,
    extensions: Seq<Seq<char>>,
) -> InstanceConfigView {
    InstanceConfigView {
        application: ApplicationInfoView {
            name: app_name,
            engine_name: app_name,
            application_version: 0,
            engine_version: 0,
            api_version: spec_api_version(),
        },
        layers,
        extensions,
        debug_report_flags: spec_debug_report_flags(),
    }
}

/// Computes [`spec_instance_config`]. The layers and extensions are taken as
/// they are given; whether the driver knows them shows when the instance is
/// created.
pub fn instance_config(app_name: &str, layers: Vec<String>, extensions: Vec<String>) -> (config:
    InstanceConfig)
    ensures
        config@ == spec_instance_config(app_name@, names_view(layers@), names_view(extensions@)),
{
    InstanceConfig {
        application: ApplicationInfo {
            name: app_name.to_owned(),
            engine_name: app_name.to_owned(),
            application_version: 0,
            engine_version: 0,
            api_version: api_version(),
        },
        layers,
        extensions,
        debug_report_flags: debug_report_flags(),
    }
}

/// The configuration that the application uses unless told otherwise: its
/// own name, the default validation layer and the default extensions.
pub fn default_instance_config() -> (config: InstanceConfig)
    ensures
        config@ == spec_instance_config(
            spec_application_name(),
            spec_validation_layers(),
            spec_extension_names(),
        ),
{
    instance_config("Niagara-rs", validation_layers(), extension_names())
}

} // verus!
