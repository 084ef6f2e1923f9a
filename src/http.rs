//! The HTTP subsystem: three configuration scopes (main, server, location),
//! their create/init/merge delegates, and request-phase handlers.
use crate::ffi::{
    HttpModuleRecord, NgxConf, NgxInt, NgxUint, Request, Trampoline, NGX_CONF_ERROR, NGX_CONF_OK,
    NGX_ERROR, NGX_HTTP_LOC_CONF_OFFSET, NGX_HTTP_MAIN_CONF_OFFSET, NGX_HTTP_MODULE,
    NGX_HTTP_PHASE_COUNT, NGX_HTTP_SRV_CONF_OFFSET, NGX_OK,
};
use crate::module::{
    conf_status, hook, spec_conf_status, spec_hook, spec_module_record, CommandCallRule, CommandCallRuleBy,
    CycleDelegate, Module, NgxModule, NgxModuleCommandsRefMut, NgxModuleCtx, PreCycleDelegate,
};
use core::marker::PhantomData;
use vstd::prelude::*;

verus! {

/// A status code that a handler returns to the host.
#[derive(PartialEq, Eq, Structural, Clone, Copy, Debug)]
pub struct Status(pub NgxInt);

/// The host's code for the outcome `r` of a module-level step: the error's
/// code, or `NGX_OK`.
pub open spec fn spec_status_code(r: Result<(), Status>) -> NgxInt {
    match r {
        Ok(_) => NGX_OK,
        Err(s) => s.0,
    }
}

/// The host's code for the outcome `r` of a module-level step: the error's
/// code, or `NGX_OK`.
pub fn status_code(r: &Result<(), Status>) -> (c: NgxInt)
    ensures
        c == spec_status_code(*r),
{
    match r {
        Ok(_) => NGX_OK,
        Err(s) => s.0,
    }
}

/// An HTTP module of the host, declared as a type.
pub trait HttpModule: Sized + 'static {
    /// Module name.
    const NAME: &'static str;
    /// Delegate of `init_master` (not called by the host now).
    type MasterInitializer: PreCycleDelegate;
    /// Delegate of `init_module` and `exit_master`.
    type ModuleDelegate: CycleDelegate;
    /// Delegate of `init_process` and `exit_process`.
    type ProcessDelegate: CycleDelegate;
    /// Delegate of `init_thread` and `exit_thread` (not called by the host now).
    type ThreadDelegate: CycleDelegate;
    /// Delegate of `preconfiguration`.
    type PreConfiguration: ConfigurationDelegate;
    /// Delegate of `postconfiguration`.
    type PostConfiguration: ConfigurationDelegate;
    /// Delegate of the main configuration, and its type.
    type MainConfSetting: InitConfSetting;
    /// Delegate of the server configuration, and its type.
    type SrvConfSetting: MergeConfSetting;
    /// Delegate of the location configuration, and its type.
    type LocConfSetting: MergeConfSetting;
    /// Per-request context type.
    type Ctx;
}

/// The generic module that an HTTP module is.
pub struct HttpModuleSkel<M: HttpModule>(pub PhantomData<M>);

impl<M: HttpModule> Module for HttpModuleSkel<M> {
    const NAME: &'static str = M::NAME;
    const TYPE: NgxUint = NGX_HTTP_MODULE;
    type Ctx = HttpModuleRecord;
    type MasterInitializer = M::MasterInitializer;
    type ModuleDelegate = M::ModuleDelegate;
    type ProcessDelegate = M::ProcessDelegate;
    type ThreadDelegate = M::ThreadDelegate;
}

/// Delegate of a module-level configuration step.
pub trait ConfigurationDelegate {
    /// Whether the hook slot is non-null; `false` when the delegate does
    /// nothing.
    const CONFIGURATION: bool = true;

    /// Runs the step; only reachable through a non-null hook.
    fn configuration(cf: &mut NgxConf) -> Result<(), Status>
        requires
            Self::CONFIGURATION,
    ;

    /// Trampoline of `configuration`: the error's code, or `NGX_OK`.
    fn configuration_unsafe(cf: &mut NgxConf) -> (code: NgxInt)
        requires
            Self::CONFIGURATION,
        ensures
            exists|c: &mut NgxConf, e: Result<(), Status>|
                *c == *old(cf) && #[trigger] call_ensures(Self::configuration, (c,), e) && code
                    == spec_status_code(e),
    {
        let f = Self::configuration;
        let r = f(cf);
        status_code(&r)
    }
}

/// The delegate that does nothing: its hook is null.
impl ConfigurationDelegate for () {
    const CONFIGURATION: bool = false;

    fn configuration(cf: &mut NgxConf) -> Result<(), Status> {
        proof {
            assert(false);
        }
        Err(Status(NGX_ERROR))
    }
}

/// Creating a configuration object failed.
#[derive(PartialEq, Eq, Structural, Clone, Copy, Debug)]
pub struct ConfCreateError;

/// Initialising a configuration object failed.
#[derive(PartialEq, Eq, Structural, Clone, Copy, Debug)]
pub struct ConfInitError;

/// Merging a configuration object failed.
#[derive(PartialEq, Eq, Structural, Clone, Copy, Debug)]
pub struct ConfMergeError;

/// Why a merge failed.
#[derive(PartialEq, Eq, Structural, Clone, Copy, Debug)]
pub enum MergeConfigError {
    /// A value that must be set is set neither here nor in the outer scope.
    NoValue,
}

impl From<MergeConfigError> for ConfMergeError {
    fn from(value: MergeConfigError) -> (r: Self) {
        match value {
            MergeConfigError::NoValue => ConfMergeError,
        }
    }
}

impl vstd::std_specs::convert::FromSpecImpl<MergeConfigError> for ConfMergeError {
    open spec fn obeys_from_spec() -> bool {
        true
    }

    open spec fn from_spec(v: MergeConfigError) -> ConfMergeError {
        ConfMergeError
    }
}

/// A configuration object that inherits unset values from the object of the
/// enclosing scope.
///
/// An implementation verified here sets `obeys_merge_law` and defines the
/// merged object and when it is complete; one written elsewhere claims
/// nothing.
pub trait Merge: Sized {
    /// Whether `merge` is held to `spec_merge` and `spec_complete`.
    open spec fn obeys_merge_law() -> bool {
        false
    }

    /// The object `self` becomes when merged with the enclosing scope's
    /// `prev`: each unset value taken from `prev`, each set value kept.
    open spec fn spec_merge(self, prev: Self) -> Self {
        self
    }

    /// Whether every value that must be set is set.
    open spec fn spec_complete(self) -> bool {
        true
    }

    /// Fills the values unset in `self` from `prev`, keeping those already
    /// set; fails with `NoValue` when a value that must be set is still
    /// unset afterwards.
    fn merge(&mut self, prev: &Self) -> (r: Result<(), MergeConfigError>)
        ensures
            Self::obeys_merge_law() ==> *final(self) == old(self).spec_merge(*prev),
            Self::obeys_merge_law() ==> (r is Ok <==> final(self).spec_complete()),
            r is Err ==> r == Err::<(), MergeConfigError>(MergeConfigError::NoValue),
    ;
}

impl Merge for () {
    open spec fn obeys_merge_law() -> bool {
        true
    }

    fn merge(&mut self, prev: &()) -> (r: Result<(), MergeConfigError>) {
        Ok(())
    }
}

/// A single optional value is a configuration of its own: unset, it takes
/// the enclosing scope's value; set, it stays. It needs no value.
impl<T: Copy> Merge for Option<T> {
    open spec fn obeys_merge_law() -> bool {
        true
    }

    open spec fn spec_merge(self, prev: Option<T>) -> Option<T> {
        spec_merged(self, prev)
    }

    fn merge(&mut self, prev: &Option<T>) -> (r: Result<(), MergeConfigError>) {
        merge_value(self, prev);
        Ok(())
    }
}

/// The merged value of a field: the current scope's value when set, the
/// enclosing scope's otherwise.
pub open spec fn spec_merged<T>(cur: Option<T>, prev: Option<T>) -> Option<T> {
    if cur is Some {
        cur
    } else {
        prev
    }
}

/// Merges one field: an unset value takes the enclosing scope's value, a set
/// value stays.
pub fn merge_value<T: Copy>(cur: &mut Option<T>, prev: &Option<T>)
    ensures
        *final(cur) == spec_merged(*old(cur), *prev),
{
    if cur.is_none() {
        *cur = *prev;
    }
}

/// The merge law of one optional value, which `DefaultMerge::merge` is held
/// to: an unset current value takes the enclosing scope's value, a set one
/// always wins, and the merge never fails.
pub proof fn lemma_option_merge_law<T: Copy>(cur: Option<T>, prev: Option<T>)
    ensures
        <Option<T> as Merge>::obeys_merge_law(),
        cur is None ==> cur.spec_merge(prev) == prev,
        cur is Some ==> cur.spec_merge(prev) == cur,
        cur.spec_merge(prev).spec_complete(),
{
}

/// Merges a field that must end up set: as `merge_value`, failing with
/// `NoValue` when neither scope sets it.
pub fn merge_required<T: Copy>(cur: &mut Option<T>, prev: &Option<T>) -> (r: Result<(), MergeConfigError>)
    ensures
        *final(cur) == spec_merged(*old(cur), *prev),
        r is Ok <==> (*final(cur)) is Some,
        r is Err ==> r == Err::<(), MergeConfigError>(MergeConfigError::NoValue),
{
    merge_value(cur, prev);
    if cur.is_some() {
        Ok(())
    } else {
        Err(MergeConfigError::NoValue)
    }
}

/// What a creation trampoline hands the host for the outcome `r`: the new
/// object to place in the configuration pool, or nothing (a null pointer).
pub fn created<C>(r: Result<C, ConfCreateError>) -> (o: Option<C>)
    ensures
        r matches Ok(c) ==> o == Some(c),
        r is Err ==> o is None,
{
    match r {
        Ok(c) => Some(c),
        Err(_) => None,
    }
}

/// Delegate of a main configuration object: create, then init.
pub trait InitConfSetting {
    /// Configuration type.
    type Conf;
    /// Whether the `create` hook slot is non-null.
    const CREATE: bool = true;
    /// Whether the `init` hook slot is non-null.
    const INIT: bool = true;

    /// Creates the object.
    fn create(cf: &mut NgxConf) -> Result<Self::Conf, ConfCreateError>
        requires
            Self::CREATE,
    ;

    /// Trampoline of `create`: the object `create` made, or nothing when it
    /// failed.
    fn create_unsafe(cf: &mut NgxConf) -> (o: Option<Self::Conf>)
        requires
            Self::CREATE,
        ensures
            exists|c: &mut NgxConf, r: Result<Self::Conf, ConfCreateError>|
                *c == *old(cf) && #[trigger] call_ensures(Self::create, (c,), r) && (r matches Ok(
                    v,
                ) ==> o == Some(v)) && (r is Err ==> o is None),
    {
        let f = Self::create;
        let r = f(cf);
        created(r)
    }

    /// Initialises the object once its block is parsed.
    fn init(cf: &mut NgxConf, conf: &mut Self::Conf) -> Result<(), ConfInitError>
        requires
            Self::INIT,
    ;

    /// Trampoline of `init`: the host's success or error sentinel.
    fn init_unsafe(cf: &mut NgxConf, conf: &mut Self::Conf) -> (s: NgxUint)
        requires
            Self::INIT,
        ensures
            s == NGX_CONF_OK || s == NGX_CONF_ERROR,
            exists|c: &mut NgxConf, d: &mut Self::Conf, e: Result<(), ConfInitError>|
                *c == *old(cf) && *d == *old(conf) && #[trigger] call_ensures(
                    Self::init,
                    (c, d),
                    e,
                ) && s == spec_conf_status(e),
    {
        let f = Self::init;
        let r = f(cf, conf);
        conf_status(&r)
    }
}

/// Main configuration of type `C`: created with `C`'s default value,
/// initialised by doing nothing.
pub struct DefaultInit<C: Default>(pub PhantomData<C>);

impl<C: Default> InitConfSetting for DefaultInit<C> {
    type Conf = C;

    fn create(cf: &mut NgxConf) -> (r: Result<C, ConfCreateError>)
        ensures
            r matches Ok(v) && call_ensures(C::default, (), v),
            *final(cf) == *old(cf),
    {
        let f = C::default;
        Ok(f())
    }

    fn init(cf: &mut NgxConf, conf: &mut C) -> (r: Result<(), ConfInitError>)
        ensures
            r is Ok,
            *final(cf) == *old(cf),
            *final(conf) == *old(conf),
    {
        Ok(())
    }
}

/// Delegate of a server or location configuration object: create, then
/// merge with the enclosing scope's object.
pub trait MergeConfSetting {
    /// Configuration type.
    type Conf;
    /// Whether the `create` hook slot is non-null.
    const CREATE: bool = true;
    /// Whether the `merge` hook slot is non-null.
    const MERGE: bool = true;

    /// Creates the object.
    fn create(cf: &mut NgxConf) -> Result<Self::Conf, ConfCreateError>
        requires
            Self::CREATE,
    ;

    /// Trampoline of `create`: the object `create` made, or nothing when it
    /// failed.
    fn create_unsafe(cf: &mut NgxConf) -> (o: Option<Self::Conf>)
        requires
            Self::CREATE,
        ensures
            exists|c: &mut NgxConf, r: Result<Self::Conf, ConfCreateError>|
                *c == *old(cf) && #[trigger] call_ensures(Self::create, (c,), r) && (r matches Ok(
                    v,
                ) ==> o == Some(v)) && (r is Err ==> o is None),
    {
        let f = Self::create;
        let r = f(cf);
        created(r)
    }

    /// Merges `conf` with the enclosing scope's object `prev`.
    fn merge(cf: &mut NgxConf, prev: &mut Self::Conf, conf: &mut Self::Conf) -> Result<(), ConfMergeError>
        requires
            Self::MERGE,
    ;

    /// Trampoline of `merge`: the host's success or error sentinel.
    fn merge_unsafe(cf: &mut NgxConf, prev: &mut Self::Conf, conf: &mut Self::Conf) -> (s: NgxUint)
        requires
            Self::MERGE,
        ensures
            s == NGX_CONF_OK || s == NGX_CONF_ERROR,
            exists|
                c: &mut NgxConf,
                p: &mut Self::Conf,
                d: &mut Self::Conf,
                e: Result<(), ConfMergeError>,
            |
                *c == *old(cf) && *p == *old(prev) && *d == *old(conf) && #[trigger] call_ensures(
                    Self::merge,
                    (c, p, d),
                    e,
                ) && s == spec_conf_status(e),
    {
        let f = Self::merge;
        let r = f(cf, prev, conf);
        conf_status(&r)
    }
}

/// Server or location configuration of type `C`: created with `C`'s default
/// value, merged by `C`'s own `merge`.
pub struct DefaultMerge<C: Default + Merge>(pub PhantomData<C>);

impl<C: Default + Merge> MergeConfSetting for DefaultMerge<C> {
    type Conf = C;

    fn create(cf: &mut NgxConf) -> (r: Result<C, ConfCreateError>)
        ensures
            r matches Ok(v) && call_ensures(C::default, (), v),
            *final(cf) == *old(cf),
    {
        let f = C::default;
        Ok(f())
    }

    fn merge(cf: &mut NgxConf, prev: &mut C, conf: &mut C) -> (r: Result<(), ConfMergeError>)
        ensures
            C::obeys_merge_law() ==> *final(conf) == old(conf).spec_merge(*old(prev)),
            C::obeys_merge_law() ==> (r is Ok <==> final(conf).spec_complete()),
            r is Err ==> r == Err::<(), ConfMergeError>(ConfMergeError),
            *final(prev) == *old(prev),
            *final(cf) == *old(cf),
    {
        match conf.merge(prev) {
            Ok(()) => Ok(()),
            Err(e) => Err(ConfMergeError::from(e)),
        }
    }
}

/// The default delegates declare every hook they have, so their methods
/// and trampolines may be called.
pub proof fn lemma_default_delegate_flags<C: Default, D: Default + Merge>()
    ensures
        <DefaultInit<C> as InitConfSetting>::CREATE,
        <DefaultInit<C> as InitConfSetting>::INIT,
        <DefaultMerge<D> as MergeConfSetting>::CREATE,
        <DefaultMerge<D> as MergeConfSetting>::MERGE,
{
}

/// Call rule of a command that configures the main object of type `C`.
pub struct HttpMainConf<C>(pub PhantomData<C>);

impl<C> CommandCallRule for HttpMainConf<C> {
    type Conf = C;
}

impl<M: HttpModule> CommandCallRuleBy<HttpModuleSkel<M>> for HttpMainConf<
    <M::MainConfSetting as InitConfSetting>::Conf,
> {
    const OFFSET: NgxUint = NGX_HTTP_MAIN_CONF_OFFSET;
}

/// Call rule of a command that configures the server object of type `C`.
pub struct HttpSrvConf<C>(pub PhantomData<C>);

impl<C> CommandCallRule for HttpSrvConf<C> {
    type Conf = C;
}

impl<M: HttpModule> CommandCallRuleBy<HttpModuleSkel<M>> for HttpSrvConf<
    <M::SrvConfSetting as MergeConfSetting>::Conf,
> {
    const OFFSET: NgxUint = NGX_HTTP_SRV_CONF_OFFSET;
}

/// Call rule of a command that configures the location object of type `C`.
pub struct HttpLocConf<C>(pub PhantomData<C>);

impl<C> CommandCallRule for HttpLocConf<C> {
    type Conf = C;
}

impl<M: HttpModule> CommandCallRuleBy<HttpModuleSkel<M>> for HttpLocConf<
    <M::LocConfSetting as MergeConfSetting>::Conf,
> {
    const OFFSET: NgxUint = NGX_HTTP_LOC_CONF_OFFSET;
}

/// A request-processing phase of the HTTP subsystem, in the host's order.
#[derive(PartialEq, Eq, Structural, Clone, Copy, Debug)]
pub enum Phase {
    PostRead,
    ServerRewrite,
    FindConfig,
    Rewrite,
    PostRewrite,
    PreAccess,
    Access,
    PostAccess,
    PreContent,
    Content,
    Log,
}

/// The host's index of a phase.
pub open spec fn spec_phase_index(p: Phase) -> usize {
    match p {
        Phase::PostRead => 0,
        Phase::ServerRewrite => 1,
        Phase::FindConfig => 2,
        Phase::Rewrite => 3,
        Phase::PostRewrite => 4,
        Phase::PreAccess => 5,
        Phase::Access => 6,
        Phase::PostAccess => 7,
        Phase::PreContent => 8,
        Phase::Content => 9,
        Phase::Log => 10,
    }
}

impl Phase {
    /// The host's index of the phase.
    pub fn into_ngx_http_phases(self) -> (r: usize)
        ensures
            r == spec_phase_index(self),
            r < NGX_HTTP_PHASE_COUNT,
    {
        match self {
            Phase::PostRead => 0,
            Phase::ServerRewrite => 1,
            Phase::FindConfig => 2,
            Phase::Rewrite => 3,
            Phase::PostRewrite => 4,
            Phase::PreAccess => 5,
            Phase::Access => 6,
            Phase::PostAccess => 7,
            Phase::PreContent => 8,
            Phase::Content => 9,
            Phase::Log => 10,
        }
    }
}

/// Whether a handler can be registered for phase `p` in the parse context
/// `cf`: the HTTP core main configuration is there and has the phase's list.
pub open spec fn spec_can_register(cf: NgxConf, p: Phase) -> bool {
    cf.core_main_conf matches Some(m) && spec_phase_index(p) < m.phases@.len()
}

/// `after` is `before` with one phase handler appended to phase `p`'s list,
/// every other list unchanged.
pub open spec fn spec_registered(before: NgxConf, after: NgxConf, p: Phase) -> bool {
    &&& before.core_main_conf matches Some(m)
    &&& after.core_main_conf matches Some(n)
    &&& n.phases@.len() == m.phases@.len()
    &&& forall|i: int|
        0 <= i < m.phases@.len() && i != spec_phase_index(p) ==> #[trigger] n.phases@[i] == m.phases@[i]
    &&& n.phases@[spec_phase_index(p) as int].handlers@ == m.phases@[spec_phase_index(
        p,
    ) as int].handlers@.push(Trampoline::PhaseHandler)
}

/// Registers a handler for phase `p`: appends it to the phase's handler list
/// in the HTTP core main configuration. Fails with `NGX_ERROR`, changing
/// nothing, when that configuration or the phase's list is missing.
pub fn register_phase_handler(cf: &mut NgxConf, p: Phase) -> (r: Result<(), Status>)
    ensures
        r is Ok <==> spec_can_register(*old(cf), p),
        r is Ok ==> spec_registered(*old(cf), *final(cf), p),
        r is Err ==> r == Err::<(), Status>(Status(NGX_ERROR)) && *final(cf) == *old(cf),
{
    let i = p.into_ngx_http_phases();
    match &mut cf.core_main_conf {
        Some(m) => {
            if i < m.phases.len() {
                m.phases[i].handlers.push(Trampoline::PhaseHandler);
                Ok(())
            } else {
                Err(Status(NGX_ERROR))
            }
        },
        None => Err(Status(NGX_ERROR)),
    }
}

/// Registration of request-phase handlers.
pub trait SetHttpHandler: Sized {
    /// Whether a handler can be registered for phase `p`.
    spec fn can_register(&self, p: Phase) -> bool;

    /// `after` is `self` with one handler registered for phase `p`.
    spec fn registered(&self, after: &Self, p: Phase) -> bool;

    /// Registers handler `H` for its phase, after the handlers already
    /// registered there; fails with `NGX_ERROR`, changing nothing, when no
    /// handler can be registered for that phase.
    fn set_handler<H: HttpHandler>(&mut self) -> (r: Result<(), Status>)
        ensures
            r is Ok <==> old(self).can_register(H::PHASE),
            r is Ok ==> old(self).registered(&*final(self), H::PHASE),
            r is Err ==> r == Err::<(), Status>(Status(NGX_ERROR)) && *final(self) == *old(self),
    ;
}

impl SetHttpHandler for NgxConf {
    open spec fn can_register(&self, p: Phase) -> bool {
        spec_can_register(*self, p)
    }

    open spec fn registered(&self, after: &NgxConf, p: Phase) -> bool {
        spec_registered(*self, *after, p)
    }

    fn set_handler<H: HttpHandler>(&mut self) -> (r: Result<(), Status>) {
        register_phase_handler(self, H::PHASE)
    }
}

/// A request handler bound to one processing phase.
pub trait HttpHandler {
    /// The phase the handler runs in.
    const PHASE: Phase;

    /// Handles a request.
    fn handle(request: &mut Request) -> Status;
}

/// Trampoline of handler `H`: the code of the status it returns.
pub fn handle_func<H: HttpHandler>(request: &mut Request) -> (code: NgxInt)
    ensures
        exists|q: &mut Request, st: Status|
            *q == *old(request) && #[trigger] call_ensures(H::handle, (q,), st) && code == st.0,
{
    let f = H::handle;
    let s = f(request);
    s.0
}

/// The HTTP context block of module `M`: one slot for each of its delegates'
/// hooks.
pub open spec fn spec_http_module_record<M: HttpModule>() -> HttpModuleRecord {
    HttpModuleRecord {
        preconfiguration: spec_hook(M::PreConfiguration::CONFIGURATION, Trampoline::Configuration),
        postconfiguration: spec_hook(M::PostConfiguration::CONFIGURATION, Trampoline::Configuration),
        create_main_conf: spec_hook(M::MainConfSetting::CREATE, Trampoline::CreateConf),
        init_main_conf: spec_hook(M::MainConfSetting::INIT, Trampoline::InitConf),
        create_srv_conf: spec_hook(M::SrvConfSetting::CREATE, Trampoline::CreateConf),
        merge_srv_conf: spec_hook(M::SrvConfSetting::MERGE, Trampoline::MergeConf),
        create_loc_conf: spec_hook(M::LocConfSetting::CREATE, Trampoline::CreateConf),
        merge_loc_conf: spec_hook(M::LocConfSetting::MERGE, Trampoline::MergeConf),
    }
}

/// A configuration delegate that declares no hook leaves its slot of the
/// HTTP context block null, one that declares a hook fills it, and the
/// delegate that does nothing declares none.
pub proof fn lemma_noop_configuration_null<M: HttpModule>()
    ensures
        spec_http_module_record::<M>().preconfiguration is None
            <==> !M::PreConfiguration::CONFIGURATION,
        spec_http_module_record::<M>().postconfiguration is None
            <==> !M::PostConfiguration::CONFIGURATION,
        !<() as ConfigurationDelegate>::CONFIGURATION,
{
}

/// The host's module record of HTTP module `M` with its HTTP context block.
pub struct NgxHttpModule<M: HttpModule>(pub NgxModule<HttpModuleSkel<M>>);

impl<M: HttpModule> NgxHttpModule<M> {
    /// The record of `M`, pointing at its context block and at `commands`.
    pub fn new(commands: NgxModuleCommandsRefMut<HttpModuleSkel<M>>) -> (r: Self)
        ensures
            r.0.record == spec_module_record::<HttpModuleSkel<M>>(),
            r.0.record.type_ == NGX_HTTP_MODULE,
            r.0.ctx.0 == spec_http_module_record::<M>(),
            r.0.commands == commands,
    {
        let ctx = HttpModuleRecord {
            preconfiguration: hook(M::PreConfiguration::CONFIGURATION, Trampoline::Configuration),
            postconfiguration: hook(M::PostConfiguration::CONFIGURATION, Trampoline::Configuration),
            create_main_conf: hook(M::MainConfSetting::CREATE, Trampoline::CreateConf),
            init_main_conf: hook(M::MainConfSetting::INIT, Trampoline::InitConf),
            create_srv_conf: hook(M::SrvConfSetting::CREATE, Trampoline::CreateConf),
            merge_srv_conf: hook(M::SrvConfSetting::MERGE, Trampoline::MergeConf),
            create_loc_conf: hook(M::LocConfSetting::CREATE, Trampoline::CreateConf),
            merge_loc_conf: hook(M::LocConfSetting::MERGE, Trampoline::MergeConf),
        };
        NgxHttpModule(NgxModule::new(NgxModuleCtx::from_raw(ctx), commands))
    }
}

} // verus!
