//! The generic module and command framework: how a module type maps to the
//! host's module record, and a command type to one entry of its command table.
use crate::ffi::{
    ngx_null_command, spec_null_command, CommandRecord, ModuleRecord, NgxConf, NgxCycle, NgxInt,
    NgxLog, NgxUint, Trampoline, NGINX_VERSION, NGX_CONF_ERROR, NGX_CONF_OK, NGX_CONF_TAKE1,
    NGX_CONF_TAKE2, NGX_ERROR, NGX_HTTP_LOC_CONF, NGX_HTTP_MAIN_CONF, NGX_HTTP_SRV_CONF,
    NGX_MODULE_SIGNATURE, NGX_MODULE_UNSET_INDEX,
};
use crate::util::{ConstArrayBuilder, StaticRefMut};
use core::marker::PhantomData;
use vstd::prelude::*;

verus! {

/// A module of the host, declared as a type.
pub trait Module: Sized + 'static {
    /// Module name.
    const NAME: &'static str;
    /// Module type signature: which host subsystem the module extends.
    const TYPE: NgxUint;
    /// Context block type of the subsystem.
    type Ctx: 'static;
    /// Delegate of `init_master` (not called by the host now).
    type MasterInitializer: PreCycleDelegate;
    /// Delegate of `init_module` and `exit_master`.
    type ModuleDelegate: CycleDelegate;
    /// Delegate of `init_process` and `exit_process`.
    type ProcessDelegate: CycleDelegate;
    /// Delegate of `init_thread` and `exit_thread` (not called by the host now).
    type ThreadDelegate: CycleDelegate;
}

/// The module record template: indices unset, no hooks, no commands.
pub open spec fn spec_module_empty() -> ModuleRecord {
    ModuleRecord {
        ctx_index: NGX_MODULE_UNSET_INDEX,
        index: NGX_MODULE_UNSET_INDEX,
        name: None,
        spare0: 0,
        spare1: 0,
        version: NGINX_VERSION,
        signature: NGX_MODULE_SIGNATURE,
        type_: 0,
        init_master: None,
        init_module: None,
        init_process: None,
        init_thread: None,
        exit_thread: None,
        exit_process: None,
        exit_master: None,
        spare_hook0: 0,
        spare_hook1: 0,
        spare_hook2: 0,
        spare_hook3: 0,
        spare_hook4: 0,
        spare_hook5: 0,
        spare_hook6: 0,
        spare_hook7: 0,
    }
}

/// The module record template: indices unset, no hooks, no commands.
pub fn ngx_module_empty() -> (r: ModuleRecord)
    ensures
        r == spec_module_empty(),
{
    ModuleRecord {
        ctx_index: NGX_MODULE_UNSET_INDEX,
        index: NGX_MODULE_UNSET_INDEX,
        name: None,
        spare0: 0,
        spare1: 0,
        version: NGINX_VERSION,
        signature: NGX_MODULE_SIGNATURE,
        type_: 0,
        init_master: None,
        init_module: None,
        init_process: None,
        init_thread: None,
        exit_thread: None,
        exit_process: None,
        exit_master: None,
        spare_hook0: 0,
        spare_hook1: 0,
        spare_hook2: 0,
        spare_hook3: 0,
        spare_hook4: 0,
        spare_hook5: 0,
        spare_hook6: 0,
        spare_hook7: 0,
    }
}

/// A hook slot: the trampoline `t` when the delegate has one, null otherwise.
pub open spec fn spec_hook(present: bool, t: Trampoline) -> Option<Trampoline> {
    if present {
        Some(t)
    } else {
        None
    }
}

/// A hook slot: the trampoline `t` when the delegate has one, null otherwise.
pub fn hook(present: bool, t: Trampoline) -> (r: Option<Trampoline>)
    ensures
        r == spec_hook(present, t),
{
    if present {
        Some(t)
    } else {
        None
    }
}

/// The module record of `M`: the template with `M`'s type signature and
/// the hooks of `M`'s delegates.
pub open spec fn spec_module_record<M: Module>() -> ModuleRecord {
    ModuleRecord {
        type_: M::TYPE,
        init_master: spec_hook(M::MasterInitializer::INIT, Trampoline::PreCycleInit),
        init_module: spec_hook(M::ModuleDelegate::INIT, Trampoline::CycleInit),
        init_process: spec_hook(M::ProcessDelegate::INIT, Trampoline::CycleInit),
        init_thread: spec_hook(M::ThreadDelegate::INIT, Trampoline::CycleInit),
        exit_thread: spec_hook(M::ThreadDelegate::EXIT, Trampoline::CycleExit),
        exit_process: spec_hook(M::ProcessDelegate::EXIT, Trampoline::CycleExit),
        exit_master: spec_hook(M::ModuleDelegate::EXIT, Trampoline::CycleExit),
        ..spec_module_empty()
    }
}

/// A delegate that declares no hook leaves its slots of the module record
/// null, a delegate that declares one fills them, and the delegate that does
/// nothing declares none. Its `init` and `exit` require the hook, so no call
/// of them is admitted; their bodies are proved unreachable.
pub proof fn lemma_noop_delegate_hooks_null<M: Module>()
    ensures
        spec_module_record::<M>().init_master is None <==> !M::MasterInitializer::INIT,
        spec_module_record::<M>().init_module is None <==> !M::ModuleDelegate::INIT,
        spec_module_record::<M>().init_process is None <==> !M::ProcessDelegate::INIT,
        spec_module_record::<M>().init_thread is None <==> !M::ThreadDelegate::INIT,
        spec_module_record::<M>().exit_thread is None <==> !M::ThreadDelegate::EXIT,
        spec_module_record::<M>().exit_process is None <==> !M::ProcessDelegate::EXIT,
        spec_module_record::<M>().exit_master is None <==> !M::ModuleDelegate::EXIT,
        !<() as PreCycleDelegate>::INIT,
        !<() as CycleDelegate>::INIT,
        !<() as CycleDelegate>::EXIT,
{
}

/// The host's module record of `M`, with the context block and the command
/// table it points at.
pub struct NgxModule<M: Module> {
    pub record: ModuleRecord,
    pub ctx: NgxModuleCtx<M>,
    pub commands: NgxModuleCommandsRefMut<M>,
}

impl<M: Module> NgxModule<M> {
    /// The record of `M`, pointing at `ctx` and `commands`.
    pub fn new(ctx: NgxModuleCtx<M>, commands: NgxModuleCommandsRefMut<M>) -> (r: Self)
        ensures
            r.record == spec_module_record::<M>(),
            r.ctx == ctx,
            r.commands == commands,
    {
        let mut record = ngx_module_empty();
        record.type_ = M::TYPE;
        record.init_master = hook(M::MasterInitializer::INIT, Trampoline::PreCycleInit);
        record.init_module = hook(M::ModuleDelegate::INIT, Trampoline::CycleInit);
        record.init_process = hook(M::ProcessDelegate::INIT, Trampoline::CycleInit);
        record.init_thread = hook(M::ThreadDelegate::INIT, Trampoline::CycleInit);
        record.exit_thread = hook(M::ThreadDelegate::EXIT, Trampoline::CycleExit);
        record.exit_process = hook(M::ProcessDelegate::EXIT, Trampoline::CycleExit);
        record.exit_master = hook(M::ModuleDelegate::EXIT, Trampoline::CycleExit);
        NgxModule { record, ctx, commands }
    }
}

/// Module type signature.
#[derive(Clone, Copy, Debug)]
pub struct ModuleSignature {
    pub signature: NgxUint,
}

impl View for ModuleSignature {
    type V = NgxUint;

    closed spec fn view(&self) -> NgxUint {
        self.signature
    }
}

impl ModuleSignature {
    /// The signature with the host's value `signature`.
    pub fn from_ngx_uint(signature: NgxUint) -> (r: Self)
        ensures
            r@ == signature,
    {
        ModuleSignature { signature: signature }
    }

    /// The host's value of the signature.
    pub fn to_ngx_uint(self) -> (r: NgxUint)
        ensures
            r == self@,
    {
        self.signature
    }
}

/// The context block of `M`.
pub struct NgxModuleCtx<M: Module>(pub M::Ctx);

impl<M: Module> NgxModuleCtx<M> {
    /// Wraps the context block value.
    pub fn from_raw(inner: M::Ctx) -> (r: Self)
        ensures
            r.0 == inner,
    {
        NgxModuleCtx(inner)
    }
}

/// The command table of `M`, of length `N` (terminating record included).
pub struct NgxModuleCommands<M: Module, const N: usize>(pub [CommandRecord; N], pub PhantomData<M>);

/// Handle to the static command table of `M`, whatever its length.
pub struct NgxModuleCommandsRefMut<M: Module>(pub PhantomData<M>, pub StaticRefMut<[CommandRecord]>);

impl<M: Module> NgxModuleCommandsRefMut<M> {
    /// The table's records, in order.
    pub open spec fn records(&self) -> Seq<CommandRecord> {
        self.1.value()@
    }

    /// Wraps the mutable borrow of a static command table.
    pub fn from_mut<const N: usize>(r: &'static mut NgxModuleCommands<M, N>) -> (t: Self)
        ensures
            t.records() == old(r).0@,
    {
        let s = vstd::array::ref_mut_array_unsizing_coercion(&mut r.0);
        NgxModuleCommandsRefMut(PhantomData, StaticRefMut::from_mut(s))
    }
}

/// Builder of the command table of `M` with `N` records, the terminating one
/// included.
pub struct NgxModuleCommandsBuilder<M: Module, const N: usize>(
    ConstArrayBuilder<CommandRecord, N>,
    PhantomData<M>,
);

impl<M: Module, const N: usize> View for NgxModuleCommandsBuilder<M, N> {
    type V = Seq<CommandRecord>;

    closed spec fn view(&self) -> Seq<CommandRecord> {
        self.0@
    }
}

impl<M: Module, const N: usize> NgxModuleCommandsBuilder<M, N> {
    /// A builder holding no command yet.
    pub fn new() -> (r: Self)
        ensures
            r@ == Seq::<CommandRecord>::empty(),
    {
        NgxModuleCommandsBuilder(ConstArrayBuilder::new(), PhantomData)
    }

    /// Appends the record of command `C`. `C` is accepted only when its
    /// call rule binds it to a configuration type that `M` declares.
    pub fn add<C: Command>(self) -> (r: Self)
        where
            C::CallRule: CommandCallRuleBy<M>,
        ensures
            r@ == self@.push(spec_command::<M, C>()),
    {
        proof {
            use_type_invariant(&self);
        }
        let c = command::<M, C>();
        let r = NgxModuleCommandsBuilder(self.0.push(c), PhantomData);
        assert(forall|i: int| 0 <= i < r.0@.len() ==> (#[trigger] r.0@[i]).set is Some) by {
            assert(r.0@ =~= self.0@.push(c));
        }
        r
    }

    /// Every record held has a handler slot: only the terminating record
    /// of a built table is all-zero.
    #[verifier::type_invariant]
    spec fn inv(self) -> bool {
        forall|i: int| 0 <= i < self.0@.len() ==> (#[trigger] self.0@[i]).set is Some
    }

    /// The number of records added so far.
    pub fn len(&self) -> (r: usize)
        ensures
            r == self@.len(),
    {
        self.0.len()
    }

    /// The table: the records added, in order, then the all-zero record.
    /// A capacity `N` other than the number of records plus one is refused
    /// before the program runs.
    pub fn build(self) -> (r: NgxModuleCommands<M, N>)
        requires
            self@.len() + 1 == N,
        ensures
            r.0@ == self@.push(spec_null_command()),
            forall|i: int| 0 <= i < self@.len() ==> (#[trigger] self@[i]).set is Some,
    {
        proof {
            use_type_invariant(&self);
        }
        NgxModuleCommands(self.0.push(ngx_null_command()).build(), PhantomData)
    }
}

/// A configuration directive, declared as a type.
pub trait Command {
    /// Which configuration object the handler receives.
    type CallRule: CommandCallRule;
    /// Directive name.
    const NAME: &'static str;
    /// Where the directive may appear.
    const CONTEXT_FLAG: CommandContextFlagSet;
    /// How many arguments the directive takes.
    const ARG_FLAG: CommandArgFlagSet;

    /// Handles one occurrence of the directive.
    fn handler(
        cf: &mut NgxConf,
        conf: &mut <Self::CallRule as CommandCallRule>::Conf,
    ) -> Result<(), ()>;
}

/// The configuration type a command's handler receives.
pub trait CommandCallRule {
    /// Configuration type.
    type Conf;
}

/// A call rule that module `M` accepts: it exists only for the exact
/// configuration type that `M` declares for one of its scopes, and gives
/// that scope's offset.
pub trait CommandCallRuleBy<M: Module>: CommandCallRule {
    /// Offset of the scope's configuration object.
    const OFFSET: NgxUint;
}

/// Offset of a scope's configuration object in the host's context.
#[derive(Clone, Copy, Debug)]
pub struct CommandOffset {
    pub offset: NgxUint,
}

impl View for CommandOffset {
    type V = NgxUint;

    closed spec fn view(&self) -> NgxUint {
        self.offset
    }
}

impl CommandOffset {
    /// The offset with the host's value `offset`.
    pub fn from_ngx_uint(offset: NgxUint) -> (r: Self)
        ensures
            r@ == offset,
    {
        CommandOffset { offset: offset }
    }

    /// The host's value of the offset.
    pub fn to_ngx_uint(self) -> (r: NgxUint)
        ensures
            r == self@,
    {
        self.offset
    }
}

/// A block in which a directive may appear.
#[derive(PartialEq, Eq, Structural, Clone, Copy, Debug)]
pub enum CommandContextFlag {
    /// The `http` block.
    HttpMain,
    /// A `server` block.
    HttpSrv,
    /// A `location` block.
    HttpLoc,
}

/// The host's bit of a context flag.
pub open spec fn context_flag_bit(f: CommandContextFlag) -> NgxUint {
    match f {
        CommandContextFlag::HttpMain => NGX_HTTP_MAIN_CONF,
        CommandContextFlag::HttpSrv => NGX_HTTP_SRV_CONF,
        CommandContextFlag::HttpLoc => NGX_HTTP_LOC_CONF,
    }
}

/// A set of context flags, as the host's bit mask.
#[derive(Clone, Copy, Debug)]
pub struct CommandContextFlagSet {
    pub bits: NgxUint,
}

impl View for CommandContextFlagSet {
    type V = NgxUint;

    closed spec fn view(&self) -> NgxUint {
        self.bits
    }
}

impl CommandContextFlagSet {
    /// The empty set.
    pub fn empty() -> (r: Self)
        ensures
            r@ == 0,
    {
        CommandContextFlagSet { bits: 0 }
    }

    /// The set with flag `f` added.
    pub fn union(self, f: CommandContextFlag) -> (r: Self)
        ensures
            r@ == self@ | context_flag_bit(f),
    {
        let b: NgxUint = match f {
            CommandContextFlag::HttpMain => NGX_HTTP_MAIN_CONF,
            CommandContextFlag::HttpSrv => NGX_HTTP_SRV_CONF,
            CommandContextFlag::HttpLoc => NGX_HTTP_LOC_CONF,
        };
        CommandContextFlagSet { bits: self.bits | b }
    }

    /// The host's bit mask.
    pub fn to_ngx_uint(self) -> (r: NgxUint)
        ensures
            r == self@,
    {
        self.bits
    }
}

/// A number of arguments a directive may take.
#[derive(PartialEq, Eq, Structural, Clone, Copy, Debug)]
pub enum CommandArgFlag {
    /// One argument.
    Take1,
    /// Two arguments.
    Take2,
}

/// The host's bit of an argument flag.
pub open spec fn arg_flag_bit(f: CommandArgFlag) -> NgxUint {
    match f {
        CommandArgFlag::Take1 => NGX_CONF_TAKE1,
        CommandArgFlag::Take2 => NGX_CONF_TAKE2,
    }
}

/// A set of argument flags, as the host's bit mask.
#[derive(Clone, Copy, Debug)]
pub struct CommandArgFlagSet {
    pub bits: NgxUint,
}

impl View for CommandArgFlagSet {
    type V = NgxUint;

    closed spec fn view(&self) -> NgxUint {
        self.bits
    }
}

impl CommandArgFlagSet {
    /// The empty set.
    pub fn empty() -> (r: Self)
        ensures
            r@ == 0,
    {
        CommandArgFlagSet { bits: 0 }
    }

    /// The set with flag `f` added.
    pub fn union(self, f: CommandArgFlag) -> (r: Self)
        ensures
            r@ == self@ | arg_flag_bit(f),
    {
        let b: NgxUint = match f {
            CommandArgFlag::Take1 => NGX_CONF_TAKE1,
            CommandArgFlag::Take2 => NGX_CONF_TAKE2,
        };
        CommandArgFlagSet { bits: self.bits | b }
    }

    /// The host's bit mask.
    pub fn to_ngx_uint(self) -> (r: NgxUint)
        ensures
            r == self@,
    {
        self.bits
    }
}

/// The command-table record of command `C` in module `M`.
pub open spec fn spec_command<M: Module, C: Command>() -> CommandRecord
    where
        C::CallRule: CommandCallRuleBy<M>,
{
    CommandRecord {
        name: C::NAME,
        type_: C::CONTEXT_FLAG@ | C::ARG_FLAG@,
        set: Some(Trampoline::CommandSet),
        conf: <C::CallRule as CommandCallRuleBy<M>>::OFFSET,
        offset: 0,
        post: 0,
    }
}

/// The command-table record of command `C` in module `M`.
pub fn command<M: Module, C: Command>() -> (r: CommandRecord)
    where
        C::CallRule: CommandCallRuleBy<M>,
    ensures
        r == spec_command::<M, C>(),
{
    CommandRecord {
        name: C::NAME,
        type_: C::CONTEXT_FLAG.to_ngx_uint() | C::ARG_FLAG.to_ngx_uint(),
        set: Some(Trampoline::CommandSet),
        conf: <C::CallRule as CommandCallRuleBy<M>>::OFFSET,
        offset: 0,
        post: 0,
    }
}

/// The address a configuration callback returns for the outcome `r`:
/// null on success, the error sentinel on failure.
pub open spec fn spec_conf_status<E>(r: Result<(), E>) -> NgxUint {
    if r is Ok {
        NGX_CONF_OK
    } else {
        NGX_CONF_ERROR
    }
}

/// The address a configuration callback returns for the outcome `r`:
/// null on success, the error sentinel on failure.
pub fn conf_status<E>(r: &Result<(), E>) -> (s: NgxUint)
    ensures
        s == spec_conf_status(*r),
{
    match r {
        Ok(_) => NGX_CONF_OK,
        Err(_) => NGX_CONF_ERROR,
    }
}

/// Trampoline of command `C`: runs its handler on the configuration object
/// of its scope and returns the host's success or error sentinel.
pub fn command_handler<M: Module, C: Command>(
    cf: &mut NgxConf,
    cmd: &CommandRecord,
    conf: &mut <C::CallRule as CommandCallRule>::Conf,
) -> (s: NgxUint)
    where
        C::CallRule: CommandCallRuleBy<M>,
    ensures
        s == NGX_CONF_OK || s == NGX_CONF_ERROR,
        exists|
            c: &mut NgxConf,
            d: &mut <C::CallRule as CommandCallRule>::Conf,
            e: Result<(), ()>,
        |
            *c == *old(cf) && *d == *old(conf) && #[trigger] call_ensures(C::handler, (c, d), e)
                && s == spec_conf_status(e),
{
    let f = C::handler;
    let r = f(cf, conf);
    conf_status(&r)
}

/// Delegate of the step before the cycle starts.
pub trait PreCycleDelegate {
    /// Whether the hook slot is non-null; `false` when the delegate does
    /// nothing.
    const INIT: bool = true;

    /// Initialises before the cycle starts; only reachable through a
    /// non-null hook.
    fn init(log: &mut NgxLog) -> NgxInt
        requires
            Self::INIT,
    ;

    /// Trampoline of `init`.
    fn init_unsafe(log: &mut NgxLog) -> (r: NgxInt)
        requires
            Self::INIT,
        ensures
            exists|l: &mut NgxLog, v: NgxInt|
                *l == *old(log) && #[trigger] call_ensures(Self::init, (l,), v) && r == v,
    {
        let f = Self::init;
        f(log)
    }
}

/// The delegate that does nothing: its hook is null.
impl PreCycleDelegate for () {
    const INIT: bool = false;

    fn init(log: &mut NgxLog) -> NgxInt {
        proof {
            assert(false);
        }
        NGX_ERROR
    }
}

/// Delegate of the start and the end of a cycle.
pub trait CycleDelegate {
    /// Whether the `init` hook slot is non-null; `false` when the delegate
    /// does nothing.
    const INIT: bool = true;
    /// Whether the `exit` hook slot is non-null; `false` when the delegate
    /// does nothing.
    const EXIT: bool = true;

    /// Initialises at the start of a cycle; only reachable through a
    /// non-null hook.
    fn init(cycle: &mut NgxCycle) -> NgxInt
        requires
            Self::INIT,
    ;

    /// Finalises at the end of a cycle; only reachable through a non-null
    /// hook.
    fn exit(cycle: &mut NgxCycle)
        requires
            Self::EXIT,
    ;

    /// Trampoline of `init`.
    fn init_unsafe(cycle: &mut NgxCycle) -> (r: NgxInt)
        requires
            Self::INIT,
        ensures
            exists|c: &mut NgxCycle, v: NgxInt|
                *c == *old(cycle) && #[trigger] call_ensures(Self::init, (c,), v) && r == v,
    {
        let f = Self::init;
        f(cycle)
    }

    /// Trampoline of `exit`.
    fn exit_unsafe(cycle: &mut NgxCycle)
        requires
            Self::EXIT,
    {
        Self::exit(cycle)
    }
}

/// The delegate that does nothing: both hooks are null.
impl CycleDelegate for () {
    const INIT: bool = false;
    const EXIT: bool = false;

    fn init(cycle: &mut NgxCycle) -> NgxInt {
        proof {
            assert(false);
        }
        NGX_ERROR
    }

    fn exit(cycle: &mut NgxCycle) {
        proof {
            assert(false);
        }
    }
}

/// Builder of the exported array of module records: the records added, then
/// a null entry, `N` entries in all.
pub struct NgxModulesBuilder<const N: usize>(ConstArrayBuilder<Option<&'static ModuleRecord>, N>);

impl<const N: usize> View for NgxModulesBuilder<N> {
    type V = Seq<Option<&'static ModuleRecord>>;

    closed spec fn view(&self) -> Seq<Option<&'static ModuleRecord>> {
        self.0@
    }
}

impl<const N: usize> NgxModulesBuilder<N> {
    /// A builder holding no module yet.
    pub fn new() -> (r: Self)
        ensures
            r@ == Seq::<Option<&'static ModuleRecord>>::empty(),
    {
        NgxModulesBuilder(ConstArrayBuilder::new())
    }

    /// Appends the record of module `M`.
    pub fn add<M: Module>(self, module: &'static NgxModule<M>) -> (r: Self)
        ensures
            r@ == self@.push(Some(&module.record)),
    {
        NgxModulesBuilder(self.0.push(Some(&module.record)))
    }

    /// The number of entries added so far.
    pub fn len(&self) -> (r: usize)
        ensures
            r == self@.len(),
    {
        self.0.len()
    }

    /// The array: the records added, in order, then `None`. A length `N`
    /// other than the number added plus one is refused before the program
    /// runs.
    pub fn build(self) -> (r: [Option<&'static ModuleRecord>; N])
        requires
            self@.len() + 1 == N,
        ensures
            r@ == self@.push(None),
    {
        let none: Option<&'static ModuleRecord> = None;
        self.0.push(none).build()
    }
}

/// Builder of the exported array of module names, parallel to the array of
/// module records.
pub struct NgxModuleNamesBuilder<const N: usize>(ConstArrayBuilder<Option<&'static str>, N>);

impl<const N: usize> View for NgxModuleNamesBuilder<N> {
    type V = Seq<Option<&'static str>>;

    closed spec fn view(&self) -> Seq<Option<&'static str>> {
        self.0@
    }
}

impl<const N: usize> NgxModuleNamesBuilder<N> {
    /// A builder holding no name yet.
    pub fn new() -> (r: Self)
        ensures
            r@ == Seq::<Option<&'static str>>::empty(),
    {
        NgxModuleNamesBuilder(ConstArrayBuilder::new())
    }

    /// Appends the name of module `M`.
    pub fn add<M: Module>(self) -> (r: Self)
        ensures
            r@ == self@.push(Some(M::NAME)),
    {
        NgxModuleNamesBuilder(self.0.push(Some(M::NAME)))
    }

    /// The number of entries added so far.
    pub fn len(&self) -> (r: usize)
        ensures
            r == self@.len(),
    {
        self.0.len()
    }

    /// The array: the names added, in order, then `None`. A length `N`
    /// other than the number added plus one is refused before the program
    /// runs.
    pub fn build(self) -> (r: [Option<&'static str>; N])
        requires
            self@.len() + 1 == N,
        ensures
            r@ == self@.push(None),
    {
        let none: Option<&'static str> = None;
        self.0.push(none).build()
    }
}

/// The exported module-order array: reserved by the host, always empty
/// (a single null entry).
pub fn ngx_module_order() -> (r: [Option<&'static str>; 1])
    ensures
        r@ == seq![None::<&'static str>],
{
    let r: [Option<&'static str>; 1] = [None];
    assert(r@ =~= seq![None::<&'static str>]);
    r
}

} // verus!
