//! The instance and the messenger that reports what the validation layer
//! finds.

use vstd::prelude::*;
use crate::base::device::names_of;
use crate::base::vk;
use crate::util::constants::{ENGINE_NAME, VALIDATION_LAYER, WINDOW_TITLE};

verus! {

/// Who asks for the instance, and for which version of the API.
#[derive(Clone, Copy, Debug, PartialEq, Eq)]
pub struct ApplicationInfo {
    pub application_name: &'static str,
    pub application_version: u32,
    pub engine_name: &'static str,
    pub engine_version: u32,
    pub api_version: u32,
}

/// The severities of messages that a messenger passes on.
#[derive(Clone, Copy, Debug, PartialEq, Eq, Structural)]
pub struct MessageSeverities {
    pub verbose: bool,
    pub info: bool,
    pub warning: bool,
    pub error: bool,
}

/// The kinds of messages that a messenger passes on.
#[derive(Clone, Copy, Debug, PartialEq, Eq, Structural)]
pub struct MessageTypes {
    pub general: bool,
    pub validation: bool,
    pub performance: bool,
}

/// The debug messenger that is asked for.
#[derive(Clone, Copy, Debug, PartialEq, Eq, Structural)]
pub struct DebugMessengerCreateInfo {
    pub message_severity: MessageSeverities,
    pub message_type: MessageTypes,
}

/// The instance that is asked for.
#[derive(Debug, PartialEq, Eq)]
pub struct InstanceCreateInfo {
    pub application_info: ApplicationInfo,
    pub layers: Vec<&'static str>,
    pub extensions: Vec<String>,
    /// Whether implementations that do not conform fully are enumerated too.
    pub enumerate_portability: bool,
    /// The messenger that reports on the creation of the instance itself.
    pub debug_messenger: Option<DebugMessengerCreateInfo>,
}

/// A messenger that passes on every message.
pub open spec fn every_message() -> DebugMessengerCreateInfo {
    DebugMessengerCreateInfo {
        message_severity: MessageSeverities { verbose: true, info: true, warning: true, error: true },
        message_type: MessageTypes { general: true, validation: true, performance: true },
    }
}

/// Version 1.0.0 of the API, as the device reads it.
pub open spec fn api_version_1_0() -> u32 {
    0x40_0000
}

/// The instance extensions that are enabled: those that the window system
/// requires, then the debug messenger's where diagnostics are on, then
/// those that enumerating a portability implementation takes.
pub open spec fn instance_extensions(
    required: Seq<Seq<char>>,
    diagnostics: bool,
    portability: bool,
) -> Seq<Seq<char>> {
    required + (if diagnostics {
        seq!["VK_EXT_debug_utils"@]
    } else {
        seq![]
    }) + (if portability {
        seq!["VK_KHR_portability_enumeration"@, "VK_KHR_get_physical_device_properties2"@]
    } else {
        seq![]
    })
}

/// Describes the debug messenger: it passes on messages of every severity
/// and kind. Without diagnostics there is none.
pub fn create_debug_data(diagnostics: bool) -> (r: Option<DebugMessengerCreateInfo>)
    ensures
        r == if diagnostics {
            Some(every_message())
        } else {
            None
        },
{
    if diagnostics {
        Some(
            DebugMessengerCreateInfo {
                message_severity: MessageSeverities {
                    verbose: true,
                    info: true,
                    warning: true,
                    error: true,
                },
                message_type: MessageTypes { general: true, validation: true, performance: true },
            },
        )
    } else {
        None
    }
}

/// Describes the instance: the application and the engine in version 0,
/// for version 1.0.0 of the API, with the extensions that the window system
/// requires. With diagnostics the validation layer, the extension of the
/// debug messenger and a messenger for the creation itself are added; on a
/// portability implementation, what enumerating it takes.
pub fn create_instance(required_extensions: Vec<String>, diagnostics: bool, portability: bool) -> (r:
    InstanceCreateInfo)
    ensures
        r.application_info.application_name@ == WINDOW_TITLE@,
        r.application_info.application_version == 0,
        r.application_info.engine_name@ == ENGINE_NAME@,
        r.application_info.engine_version == 0,
        r.application_info.api_version == api_version_1_0(),
        diagnostics ==> r.layers@.len() == 1 && r.layers@[0]@ == VALIDATION_LAYER@,
        !diagnostics ==> r.layers@.len() == 0,
        names_of(r.extensions@) == instance_extensions(
            names_of(required_extensions@),
            diagnostics,
            portability,
        ),
        r.enumerate_portability == portability,
        r.debug_messenger == if diagnostics {
            Some(every_message())
        } else {
            None
        },
{
    let mut layers: Vec<&'static str> = Vec::new();
    let mut extensions: Vec<String> = required_extensions;
    if diagnostics {
        layers.push(VALIDATION_LAYER);
        extensions.push(vk::debug_utils_extension_name());
    }
    if portability {
        extensions.push(vk::portability_enumeration_extension_name());
        extensions.push(vk::physical_device_properties2_extension_name());
    }
    let api_version: u32 = vk::api_version(0, 1, 0, 0);
    assert(vk::packed_api_version(0, 1, 0, 0) == 0x40_0000) by {
        assert((0u32 << 29) | (1u32 << 22) | (0u32 << 12) | 0u32 == 0x40_0000u32) by (bit_vector);
    }
    assert(names_of(extensions@) =~= instance_extensions(
        names_of(required_extensions@),
        diagnostics,
        portability,
    ));
    InstanceCreateInfo {
        application_info: ApplicationInfo {
            application_name: WINDOW_TITLE,
            application_version: 0,
            engine_name: ENGINE_NAME,
            engine_version: 0,
            api_version,
        },
        layers,
        extensions,
        enumerate_portability: portability,
        debug_messenger: create_debug_data(diagnostics),
    }
}

/// How serious a message of the validation layer is.
#[derive(Clone, Copy, Debug, PartialEq, Eq, Structural)]
pub enum Severity {
    Verbose,
    Info,
    Warning,
    Error,
}

/// The level at which a message is logged.
#[derive(Clone, Copy, Debug, PartialEq, Eq, Structural)]
pub enum LogLevel {
    Error,
    Warn,
    Info,
    Debug,
    Trace,
}

/// The severity that a raw severity value amounts to: the highest of
/// error, warning and info that it reaches, else verbose.
pub open spec fn severity_of(severity: u32) -> Severity {
    if severity >= vk::severity_error() {
        Severity::Error
    } else if severity >= vk::severity_warning() {
        Severity::Warning
    } else if severity >= vk::severity_info() {
        Severity::Info
    } else {
        Severity::Verbose
    }
}

impl Severity {
    /// Errors and warnings are logged as such, informational messages for
    /// debugging, verbose ones as traces.
    pub open spec fn spec_log_level(self) -> LogLevel {
        match self {
            Severity::Error => LogLevel::Error,
            Severity::Warning => LogLevel::Warn,
            Severity::Info => LogLevel::Debug,
            Severity::Verbose => LogLevel::Trace,
        }
    }

    #[verifier::when_used_as_spec(spec_log_level)]
    pub fn log_level(self) -> (r: LogLevel)
        ensures
            r == self.spec_log_level(),
    {
        match self {
            Severity::Error => LogLevel::Error,
            Severity::Warning => LogLevel::Warn,
            Severity::Info => LogLevel::Debug,
            Severity::Verbose => LogLevel::Trace,
        }
    }
}

/// Classifies a message of the validation layer by the severity value that
/// it comes with.
pub fn debug_callback(severity: u32) -> (r: Severity)
    ensures
        r == severity_of(severity),
{
    if severity >= vk::error_severity() {
        Severity::Error
    } else if severity >= vk::warning_severity() {
        Severity::Warning
    } else if severity >= vk::info_severity() {
        Severity::Info
    } else {
        Severity::Verbose
    }
}

} // verus!
