//! The host's binary interface, as plain values: the constants of the pinned
//! host release and the records it reads.
//!
//! A function-pointer slot of a host record is modelled by the kind of
//! trampoline it points at, or `None` for the null pointer; the code at the
//! boundary turns each kind into the address of the matching trampoline.
use vstd::prelude::*;

verus! {

/// The host's unsigned machine word.
pub type NgxUint = usize;

/// The host's signed machine word.
pub type NgxInt = isize;

/// Version number of the host release the records are laid out for.
pub const NGINX_VERSION: NgxUint = 1026001;

/// Build signature the host checks against each module record.
pub const NGX_MODULE_SIGNATURE: &'static str = "8,4,8,0000111111010111001110101111000110110";

/// Index value meaning "not assigned yet"; the host assigns indices at load.
pub const NGX_MODULE_UNSET_INDEX: NgxUint = usize::MAX;

/// Return value of a host callback that succeeded.
pub const NGX_OK: NgxInt = 0;

/// Return value of a host callback that failed.
pub const NGX_ERROR: NgxInt = -1;

/// Address returned by a configuration callback that succeeded (null).
pub const NGX_CONF_OK: NgxUint = 0;

/// Address returned by a configuration callback that failed (`(char *) -1`).
pub const NGX_CONF_ERROR: NgxUint = usize::MAX;

/// Type signature of an HTTP module (`"HTTP"` read as a little-endian word).
pub const NGX_HTTP_MODULE: NgxUint = 0x50545448;

/// Directive may appear in the `http` block.
pub const NGX_HTTP_MAIN_CONF: NgxUint = 0x02000000;

/// Directive may appear in a `server` block.
pub const NGX_HTTP_SRV_CONF: NgxUint = 0x04000000;

/// Directive may appear in a `location` block.
pub const NGX_HTTP_LOC_CONF: NgxUint = 0x08000000;

/// Directive takes one argument.
pub const NGX_CONF_TAKE1: NgxUint = 0x00000002;

/// Directive takes two arguments.
pub const NGX_CONF_TAKE2: NgxUint = 0x00000004;

/// Offset of the main-configuration array in the HTTP context.
pub const NGX_HTTP_MAIN_CONF_OFFSET: NgxUint = 0;

/// Offset of the server-configuration array in the HTTP context.
pub const NGX_HTTP_SRV_CONF_OFFSET: NgxUint = 8;

/// Offset of the location-configuration array in the HTTP context.
pub const NGX_HTTP_LOC_CONF_OFFSET: NgxUint = 16;

/// Number of request-processing phases of the HTTP subsystem.
pub const NGX_HTTP_PHASE_COUNT: usize = 11;

/// The trampoline a function-pointer slot of a host record points at.
#[derive(PartialEq, Eq, Structural, Clone, Copy, Debug)]
pub enum Trampoline {
    /// Initialisation before the cycle starts.
    PreCycleInit,
    /// Initialisation at the start of a cycle.
    CycleInit,
    /// Finalisation at the end of a cycle.
    CycleExit,
    /// Handler of one configuration directive.
    CommandSet,
    /// Module-level configuration step.
    Configuration,
    /// Creation of a configuration object.
    CreateConf,
    /// Initialisation of a main configuration object.
    InitConf,
    /// Merge of a configuration object with its outer one.
    MergeConf,
    /// Request handler of one processing phase.
    PhaseHandler,
}

/// One entry of a module's command table.
#[derive(PartialEq, Eq, Clone, Copy, Debug)]
pub struct CommandRecord {
    /// Directive name; empty in the terminating record.
    pub name: &'static str,
    /// Context flags or-ed with argument flags.
    pub type_: NgxUint,
    /// Handler slot.
    pub set: Option<Trampoline>,
    /// Offset selecting the configuration object the handler receives.
    pub conf: NgxUint,
    /// Offset of a field inside that object.
    pub offset: NgxUint,
    /// Extra data for the handler (an address; zero for none).
    pub post: NgxUint,
}

/// The host's module record.
#[derive(PartialEq, Eq, Clone, Copy, Debug)]
pub struct ModuleRecord {
    pub ctx_index: NgxUint,
    pub index: NgxUint,
    /// Module name; the host fills it from the exported name list.
    pub name: Option<&'static str>,
    pub spare0: NgxUint,
    pub spare1: NgxUint,
    pub version: NgxUint,
    pub signature: &'static str,
    pub type_: NgxUint,
    pub init_master: Option<Trampoline>,
    pub init_module: Option<Trampoline>,
    pub init_process: Option<Trampoline>,
    pub init_thread: Option<Trampoline>,
    pub exit_thread: Option<Trampoline>,
    pub exit_process: Option<Trampoline>,
    pub exit_master: Option<Trampoline>,
    pub spare_hook0: NgxUint,
    pub spare_hook1: NgxUint,
    pub spare_hook2: NgxUint,
    pub spare_hook3: NgxUint,
    pub spare_hook4: NgxUint,
    pub spare_hook5: NgxUint,
    pub spare_hook6: NgxUint,
    pub spare_hook7: NgxUint,
}

/// The HTTP subsystem's context block of a module.
#[derive(PartialEq, Eq, Structural, Clone, Copy, Debug)]
pub struct HttpModuleRecord {
    pub preconfiguration: Option<Trampoline>,
    pub postconfiguration: Option<Trampoline>,
    pub create_main_conf: Option<Trampoline>,
    pub init_main_conf: Option<Trampoline>,
    pub create_srv_conf: Option<Trampoline>,
    pub merge_srv_conf: Option<Trampoline>,
    pub create_loc_conf: Option<Trampoline>,
    pub merge_loc_conf: Option<Trampoline>,
}

/// The host's log, as far as callbacks see it.
pub struct NgxLog {
    pub log_level: NgxUint,
}

/// The host's cycle: the state of one configuration epoch.
pub struct NgxCycle {
    pub generation: NgxUint,
}

/// Handlers registered for one request-processing phase, in order.
pub struct PhaseHandlers {
    pub handlers: Vec<Trampoline>,
}

/// Main configuration of the HTTP core module: the phase handler lists.
pub struct HttpCoreMainConf {
    pub phases: Vec<PhaseHandlers>,
}

/// The host's configuration-parse context.
pub struct NgxConf {
    /// The HTTP core module's main configuration, when the parse is inside
    /// an `http` block.
    pub core_main_conf: Option<HttpCoreMainConf>,
}

/// A request, as far as phase handlers see it.
pub struct Request {
    pub uri: Vec<u8>,
}

/// The all-zero record that ends a command table.
pub open spec fn spec_null_command() -> CommandRecord {
    CommandRecord { name: "", type_: 0, set: None, conf: 0, offset: 0, post: 0 }
}

/// The all-zero record that ends a command table.
pub fn ngx_null_command() -> (r: CommandRecord)
    ensures
        r == spec_null_command(),
{
    CommandRecord { name: "", type_: 0, set: None, conf: 0, offset: 0, post: 0 }
}

} // verus!
