//! Default values of tool parameters that the plugin relies on when a
//! client leaves them out.

use vstd::prelude::*;
use vstd::string::StringExecFns;

verus! {

/// The text of each string of a sequence.
pub open spec fn texts(names: Seq<String>) -> Seq<Seq<char>> {
    Seq::new(names.len(), |i: int| names[i]@)
}

/// The services that an inspection covers when none are named.
pub open spec fn common_services() -> Seq<Seq<char>> {
    seq![
        "Workspace"@,
        "Players"@,
        "Lighting"@,
        "ReplicatedStorage"@,
        "ServerScriptService"@,
        "StarterGui"@,
    ]
}

/// The services that diagnostics cover when none are named.
pub open spec fn diagnostics_services() -> Seq<Seq<char>> {
    seq![
        "Workspace"@,
        "Players"@,
        "Lighting"@,
        "ReplicatedStorage"@,
        "ServerScriptService"@,
    ]
}

/// The default of a flag that is on unless the client turns it off.
pub fn default_true() -> (flag: bool)
    ensures
        flag,
{
    true
}

/// The default of a flag that is off unless the client turns it on.
pub fn default_false() -> (flag: bool)
    ensures
        !flag,
{
    false
}

/// The default list of services to inspect.
pub fn default_service_list() -> (services: Vec<String>)
    ensures
        texts(services@) == common_services(),
{
    let mut services: Vec<String> = Vec::new();
    services.push(String::from_str("Workspace"));
    services.push(String::from_str("Players"));
    services.push(String::from_str("Lighting"));
    services.push(String::from_str("ReplicatedStorage"));
    services.push(String::from_str("ServerScriptService"));
    services.push(String::from_str("StarterGui"));
    assert(texts(services@) =~= common_services());
    services
}

/// Which services an environment inspection covers.
#[derive(Clone, Debug, PartialEq, Eq)]
pub struct InspectServicesScope {
    /// Include descendant counts for each requested service.
    pub include_counts: bool,
    /// The services to inspect.
    pub services: Vec<String>,
}

/// How recent log history is collected.
#[derive(Clone, Copy, Debug, PartialEq, Eq)]
pub struct DiagnosticsLogOptions {
    /// Include entries of error severity.
    pub include_errors: bool,
    /// Include entries of warning severity.
    pub include_warnings: bool,
    /// Include informational entries.
    pub include_info: bool,
    /// The largest number of entries to return.
    pub max_entries: Option<u32>,
    /// The largest number of entries per chunk of the response.
    pub chunk_size: Option<u32>,
}

/// Which services diagnostics gather metrics for.
#[derive(Clone, Debug, PartialEq, Eq)]
pub struct DiagnosticsServiceSelection {
    /// The services to inspect.
    pub services: Vec<String>,
    /// Include descendant counts for each requested service.
    pub include_descendant_counts: bool,
    /// Include memory tag usage where available.
    pub include_memory_tags: bool,
}

/// What a diagnostics request collects.
#[derive(Clone, Debug, PartialEq, Eq)]
pub struct DiagnosticsAndMetricsRequest {
    /// How recent log history is collected, if at all.
    pub logs: Option<DiagnosticsLogOptions>,
    /// Include a microprofiler snapshot.
    pub include_micro_profiler: bool,
    /// Collect overall memory statistics.
    pub include_memory_stats: bool,
    /// Collect task scheduler metrics.
    pub include_task_scheduler: bool,
    /// Which services to gather metrics for, if any.
    pub service_selection: Option<DiagnosticsServiceSelection>,
}

/// The log options that apply when a request names none: errors and
/// warnings, no informational entries, at most 200 entries in chunks of
/// 100.
pub open spec fn default_log_options() -> DiagnosticsLogOptions {
    DiagnosticsLogOptions {
        include_errors: true,
        include_warnings: true,
        include_info: false,
        max_entries: Some(200u32),
        chunk_size: Some(100u32),
    }
}

impl Default for InspectServicesScope {
    fn default() -> (scope: Self)
        ensures
            scope.include_counts,
            texts(scope.services@) == common_services(),
    {
        InspectServicesScope { include_counts: default_true(), services: default_service_list() }
    }
}

impl Default for DiagnosticsLogOptions {
    fn default() -> (options: Self)
        ensures
            options == default_log_options(),
    {
        DiagnosticsLogOptions {
            include_errors: true,
            include_warnings: true,
            include_info: false,
            max_entries: Some(200),
            chunk_size: Some(100),
        }
    }
}

impl Default for DiagnosticsServiceSelection {
    fn default() -> (selection: Self)
        ensures
            texts(selection.services@) == diagnostics_services(),
            selection.include_descendant_counts,
            selection.include_memory_tags,
    {
        let mut services: Vec<String> = Vec::new();
        services.push(String::from_str("Workspace"));
        services.push(String::from_str("Players"));
        services.push(String::from_str("Lighting"));
        services.push(String::from_str("ReplicatedStorage"));
        services.push(String::from_str("ServerScriptService"));
        assert(texts(services@) =~= diagnostics_services());
        DiagnosticsServiceSelection {
            services,
            include_descendant_counts: true,
            include_memory_tags: true,
        }
    }
}

impl Default for DiagnosticsAndMetricsRequest {
    fn default() -> (request: Self)
        ensures
            request.logs == Some(default_log_options()),
            !request.include_micro_profiler,
            request.include_memory_stats,
            request.include_task_scheduler,
            request.service_selection matches Some(selection) && texts(selection.services@)
                == diagnostics_services() && selection.include_descendant_counts
                && selection.include_memory_tags,
    {
        DiagnosticsAndMetricsRequest {
            logs: Some(DiagnosticsLogOptions::default()),
            include_micro_profiler: false,
            include_memory_stats: true,
            include_task_scheduler: true,
            service_selection: Some(DiagnosticsServiceSelection::default()),
        }
    }
}

} // verus!
