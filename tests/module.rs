use ngx::ffi::{
    ngx_null_command, CommandRecord, HttpCoreMainConf, NgxConf, NgxCycle, NgxInt, NgxLog, PhaseHandlers,
    Request, Trampoline, NGINX_VERSION, NGX_CONF_ERROR, NGX_CONF_OK, NGX_CONF_TAKE1, NGX_CONF_TAKE2,
    NGX_ERROR, NGX_HTTP_LOC_CONF, NGX_HTTP_LOC_CONF_OFFSET, NGX_HTTP_MAIN_CONF, NGX_HTTP_MAIN_CONF_OFFSET,
    NGX_HTTP_MODULE, NGX_HTTP_SRV_CONF, NGX_HTTP_SRV_CONF_OFFSET, NGX_MODULE_SIGNATURE, NGX_MODULE_UNSET_INDEX,
    NGX_OK,
};
use ngx::http::{
    created, handle_func, merge_required, merge_value, status_code, ConfCreateError, ConfMergeError,
    ConfigurationDelegate, DefaultInit, DefaultMerge, HttpHandler, HttpLocConf, HttpMainConf, HttpModule,
    HttpModuleSkel, HttpSrvConf, InitConfSetting, Merge, MergeConfSetting, MergeConfigError, NgxHttpModule,
    Phase, SetHttpHandler, Status,
};
use ngx::module::{
    command, command_handler, conf_status, Command, CommandArgFlag, CommandArgFlagSet, CommandContextFlag,
    CommandContextFlagSet, CommandOffset, CycleDelegate, ModuleSignature, NgxModule, NgxModuleCommands,
    NgxModuleCommandsBuilder, NgxModuleCommandsRefMut, NgxModuleCtx, NgxModuleNamesBuilder, NgxModulesBuilder,
    PreCycleDelegate, ngx_module_order,
};

#[derive(Default, Debug, PartialEq, Clone, Copy)]
struct LocConf {
    x: Option<u32>,
}

impl Merge for LocConf {
    fn merge(&mut self, prev: &LocConf) -> Result<(), MergeConfigError> {
        merge_value(&mut self.x, &prev.x);
        Ok(())
    }
}

#[derive(Default, Debug, PartialEq, Clone, Copy)]
struct SrvConf {
    port: Option<u16>,
}

impl Merge for SrvConf {
    fn merge(&mut self, prev: &SrvConf) -> Result<(), MergeConfigError> {
        merge_required(&mut self.port, &prev.port)
    }
}

struct FooBarHttpModule;

impl HttpModule for FooBarHttpModule {
    const NAME: &'static str = "foo_bar_module";
    type MasterInitializer = ();
    type ModuleDelegate = ();
    type ProcessDelegate = ();
    type ThreadDelegate = ();
    type PreConfiguration = ();
    type PostConfiguration = ();
    type MainConfSetting = DefaultInit<u32>;
    type SrvConfSetting = DefaultMerge<SrvConf>;
    type LocConfSetting = DefaultMerge<LocConf>;
    type Ctx = ();
}

type Foo = HttpModuleSkel<FooBarHttpModule>;

struct ProcessCounter;

impl CycleDelegate for ProcessCounter {
    fn init(cycle: &mut NgxCycle) -> NgxInt {
        cycle.generation += 1;
        NGX_OK
    }

    fn exit(cycle: &mut NgxCycle) {
        cycle.generation = 0;
    }
}

struct MasterStart;

impl PreCycleDelegate for MasterStart {
    fn init(_log: &mut NgxLog) -> NgxInt {
        NGX_OK
    }
}

struct PostConf;

impl ConfigurationDelegate for PostConf {
    fn configuration(cf: &mut NgxConf) -> Result<(), Status> {
        if cf.core_main_conf.is_some() {
            Ok(())
        } else {
            Err(Status(NGX_ERROR))
        }
    }
}

struct BusyHttpModule;

impl HttpModule for BusyHttpModule {
    const NAME: &'static str = "busy_module";
    type MasterInitializer = MasterStart;
    type ModuleDelegate = ();
    type ProcessDelegate = ProcessCounter;
    type ThreadDelegate = ();
    type PreConfiguration = ();
    type PostConfiguration = PostConf;
    type MainConfSetting = DefaultInit<u32>;
    type SrvConfSetting = DefaultMerge<()>;
    type LocConfSetting = DefaultMerge<LocConf>;
    type Ctx = ();
}

type Busy = HttpModuleSkel<BusyHttpModule>;

struct FooBarCommand;

impl Command for FooBarCommand {
    type CallRule = HttpMainConf<u32>;
    const NAME: &'static str = "foo_bar";
    const CONTEXT_FLAG: CommandContextFlagSet = CommandContextFlagSet {
        bits: NGX_HTTP_MAIN_CONF | NGX_HTTP_SRV_CONF | NGX_HTTP_LOC_CONF,
    };
    const ARG_FLAG: CommandArgFlagSet = CommandArgFlagSet {
        bits: NGX_CONF_TAKE1 | NGX_CONF_TAKE2,
    };

    fn handler(_cf: &mut NgxConf, conf: &mut u32) -> Result<(), ()> {
        if *conf >= 2 {
            return Err(());
        }
        *conf += 1;
        Ok(())
    }
}

struct ListenCommand;

impl Command for ListenCommand {
    type CallRule = HttpSrvConf<SrvConf>;
    const NAME: &'static str = "foo_listen";
    const CONTEXT_FLAG: CommandContextFlagSet = CommandContextFlagSet {
        bits: NGX_HTTP_SRV_CONF,
    };
    const ARG_FLAG: CommandArgFlagSet = CommandArgFlagSet { bits: NGX_CONF_TAKE1 };

    fn handler(_cf: &mut NgxConf, conf: &mut SrvConf) -> Result<(), ()> {
        conf.port = Some(8080);
        Ok(())
    }
}

struct LimitCommand;

impl Command for LimitCommand {
    type CallRule = HttpLocConf<LocConf>;
    const NAME: &'static str = "foo_limit";
    const CONTEXT_FLAG: CommandContextFlagSet = CommandContextFlagSet {
        bits: NGX_HTTP_LOC_CONF,
    };
    const ARG_FLAG: CommandArgFlagSet = CommandArgFlagSet { bits: NGX_CONF_TAKE2 };

    fn handler(_cf: &mut NgxConf, conf: &mut LocConf) -> Result<(), ()> {
        conf.x = Some(3);
        Ok(())
    }
}

struct ContentHandler;

impl HttpHandler for ContentHandler {
    const PHASE: Phase = Phase::Content;

    fn handle(request: &mut Request) -> Status {
        if request.uri.is_empty() {
            Status(404)
        } else {
            Status(NGX_OK)
        }
    }
}

struct AccessHandler;

impl HttpHandler for AccessHandler {
    const PHASE: Phase = Phase::Access;

    fn handle(_request: &mut Request) -> Status {
        Status(403)
    }
}

fn empty_conf() -> NgxConf {
    NgxConf { core_main_conf: None }
}

fn http_conf() -> NgxConf {
    let mut phases = Vec::new();
    for _ in 0..11 {
        phases.push(PhaseHandlers { handlers: Vec::new() });
    }
    NgxConf { core_main_conf: Some(HttpCoreMainConf { phases }) }
}

fn leak_commands<M: ngx::module::Module, const N: usize>(t: NgxModuleCommands<M, N>) -> NgxModuleCommandsRefMut<M> {
    NgxModuleCommandsRefMut::from_mut(Box::leak(Box::new(t)))
}

#[test]
fn command_table_holds_commands_then_sentinel() {
    let table = NgxModuleCommandsBuilder::<Foo, 3>::new()
        .add::<FooBarCommand>()
        .add::<ListenCommand>()
        .build();
    assert_eq!(table.0[0], command::<Foo, FooBarCommand>());
    assert_eq!(table.0[1], command::<Foo, ListenCommand>());
    assert_eq!(table.0[2], ngx_null_command());
    assert_eq!(
        table.0[2],
        CommandRecord { name: "", type_: 0, set: None, conf: 0, offset: 0, post: 0 }
    );
}

#[test]
fn command_table_counts_its_commands() {
    let b = NgxModuleCommandsBuilder::<Foo, 3>::new()
        .add::<FooBarCommand>()
        .add::<ListenCommand>();
    assert_eq!(b.len(), 2);
    assert_eq!(NgxModuleCommandsBuilder::<Foo, 4>::new().len(), 0);
    let only_sentinel = NgxModuleCommandsBuilder::<Foo, 1>::new().build();
    assert_eq!(only_sentinel.0, [ngx_null_command()]);
}

#[test]
fn command_record_of_main_scope_command() {
    let r = command::<Foo, FooBarCommand>();
    assert_eq!(r.name, "foo_bar");
    assert_eq!(r.type_, 0x0E00_0006);
    assert_eq!(r.set, Some(Trampoline::CommandSet));
    assert_eq!(r.conf, NGX_HTTP_MAIN_CONF_OFFSET);
    assert_eq!(r.offset, 0);
    assert_eq!(r.post, 0);
}

#[test]
fn command_records_carry_their_scope_offset() {
    let srv = command::<Foo, ListenCommand>();
    assert_eq!(srv.conf, NGX_HTTP_SRV_CONF_OFFSET);
    assert_eq!(srv.type_, NGX_HTTP_SRV_CONF | NGX_CONF_TAKE1);
    let loc = command::<Foo, LimitCommand>();
    assert_eq!(loc.conf, NGX_HTTP_LOC_CONF_OFFSET);
    assert_eq!(loc.type_, 0x0800_0004);
}

#[test]
fn command_handler_maps_outcome_to_sentinel() {
    let mut cf = empty_conf();
    let cmd = command::<Foo, FooBarCommand>();
    let mut conf: u32 = 1;
    assert_eq!(command_handler::<Foo, FooBarCommand>(&mut cf, &cmd, &mut conf), NGX_CONF_OK);
    assert_eq!(conf, 2);
    assert_eq!(command_handler::<Foo, FooBarCommand>(&mut cf, &cmd, &mut conf), NGX_CONF_ERROR);
    assert_eq!(conf, 2);
}

#[test]
fn conf_status_sentinels() {
    assert_eq!(conf_status::<()>(&Ok(())), 0);
    assert_eq!(conf_status(&Err::<(), u8>(7)), usize::MAX);
    assert_ne!(NGX_CONF_OK, NGX_CONF_ERROR);
}

#[test]
fn noop_delegates_leave_hooks_null() {
    let table = NgxModuleCommandsBuilder::<Foo, 2>::new().add::<FooBarCommand>().build();
    let m = NgxHttpModule::<FooBarHttpModule>::new(leak_commands(table));
    let r = m.0.record;
    assert_eq!(r.init_master, None);
    assert_eq!(r.init_module, None);
    assert_eq!(r.init_process, None);
    assert_eq!(r.init_thread, None);
    assert_eq!(r.exit_thread, None);
    assert_eq!(r.exit_process, None);
    assert_eq!(r.exit_master, None);
    assert_eq!(m.0.ctx.0.preconfiguration, None);
    assert_eq!(m.0.ctx.0.postconfiguration, None);
}

#[test]
fn module_record_template_fields() {
    let table = NgxModuleCommandsBuilder::<Foo, 2>::new().add::<FooBarCommand>().build();
    let m = NgxHttpModule::<FooBarHttpModule>::new(leak_commands(table));
    let r = m.0.record;
    assert_eq!(r.type_, NGX_HTTP_MODULE);
    assert_eq!(r.type_, 0x5054_5448);
    assert_eq!(r.version, NGINX_VERSION);
    assert_eq!(r.signature, NGX_MODULE_SIGNATURE);
    assert_eq!(r.ctx_index, NGX_MODULE_UNSET_INDEX);
    assert_eq!(r.index, usize::MAX);
    assert_eq!(r.name, None);
    assert_eq!(r.spare_hook7, 0);
    let records = m.0.commands.1.to_ref();
    assert_eq!(records.len(), 2);
    assert_eq!(records[0].name, "foo_bar");
}

#[test]
fn delegates_with_hooks_fill_their_slots() {
    let table = NgxModuleCommandsBuilder::<Busy, 1>::new().build();
    let m = NgxHttpModule::<BusyHttpModule>::new(leak_commands(table));
    let r = m.0.record;
    assert_eq!(r.init_master, Some(Trampoline::PreCycleInit));
    assert_eq!(r.init_module, None);
    assert_eq!(r.init_process, Some(Trampoline::CycleInit));
    assert_eq!(r.exit_process, Some(Trampoline::CycleExit));
    assert_eq!(r.exit_master, None);
    let ctx = m.0.ctx.0;
    assert_eq!(ctx.preconfiguration, None);
    assert_eq!(ctx.postconfiguration, Some(Trampoline::Configuration));
    assert_eq!(ctx.create_main_conf, Some(Trampoline::CreateConf));
    assert_eq!(ctx.init_main_conf, Some(Trampoline::InitConf));
    assert_eq!(ctx.create_srv_conf, Some(Trampoline::CreateConf));
    assert_eq!(ctx.merge_srv_conf, Some(Trampoline::MergeConf));
    assert_eq!(ctx.create_loc_conf, Some(Trampoline::CreateConf));
    assert_eq!(ctx.merge_loc_conf, Some(Trampoline::MergeConf));
}

#[test]
fn generic_module_record_from_context() {
    let table = NgxModuleCommandsBuilder::<Busy, 1>::new().build();
    let ctx = NgxModuleCtx::<Busy>::from_raw(NgxHttpModule::<FooBarHttpModule>::new(leak_commands(
        NgxModuleCommandsBuilder::<Foo, 1>::new().build(),
    ))
    .0
    .ctx
    .0);
    let m = NgxModule::<Busy>::new(ctx, leak_commands(table));
    assert_eq!(m.record.init_process, Some(Trampoline::CycleInit));
    assert_eq!(m.ctx.0.merge_loc_conf, Some(Trampoline::MergeConf));
}

#[test]
fn cycle_trampolines_call_the_delegate() {
    let mut cycle = NgxCycle { generation: 4 };
    assert_eq!(ProcessCounter::init_unsafe(&mut cycle), NGX_OK);
    assert_eq!(cycle.generation, 5);
    ProcessCounter::exit_unsafe(&mut cycle);
    assert_eq!(cycle.generation, 0);
    let mut log = NgxLog { log_level: 0 };
    assert_eq!(MasterStart::init_unsafe(&mut log), NGX_OK);
}

#[test]
fn configuration_trampoline_returns_status_code() {
    assert_eq!(PostConf::configuration_unsafe(&mut http_conf()), NGX_OK);
    assert_eq!(PostConf::configuration_unsafe(&mut empty_conf()), NGX_ERROR);
    assert_eq!(status_code(&Err(Status(-5))), -5);
    assert_eq!(status_code(&Ok(())), 0);
}

#[test]
fn merge_keeps_set_value_and_fills_unset() {
    let prev = LocConf { x: Some(1) };
    let mut cur = LocConf { x: None };
    cur.merge(&prev).unwrap();
    assert_eq!(cur.x, Some(1));
    let mut cur = LocConf { x: Some(2) };
    cur.merge(&prev).unwrap();
    assert_eq!(cur.x, Some(2));
    let mut cur = LocConf { x: None };
    cur.merge(&LocConf { x: None }).unwrap();
    assert_eq!(cur.x, None);
}

#[test]
fn merge_required_fails_when_unset_everywhere() {
    let mut port: Option<u16> = None;
    assert_eq!(merge_required(&mut port, &None), Err(MergeConfigError::NoValue));
    assert_eq!(port, None);
    assert_eq!(merge_required(&mut port, &Some(80)), Ok(()));
    assert_eq!(port, Some(80));
}

#[test]
fn default_merge_trampoline() {
    let mut cf = http_conf();
    let mut prev = DefaultMerge::<SrvConf>::create_unsafe(&mut cf).unwrap();
    let mut conf = DefaultMerge::<SrvConf>::create_unsafe(&mut cf).unwrap();
    assert_eq!(conf, SrvConf { port: None });
    assert_eq!(DefaultMerge::<SrvConf>::merge(&mut cf, &mut prev, &mut conf), Err(ConfMergeError));
    assert_eq!(DefaultMerge::<SrvConf>::merge_unsafe(&mut cf, &mut prev, &mut conf), NGX_CONF_ERROR);
    prev.port = Some(443);
    assert_eq!(DefaultMerge::<SrvConf>::merge_unsafe(&mut cf, &mut prev, &mut conf), NGX_CONF_OK);
    assert_eq!(conf.port, Some(443));
    assert_eq!(ConfMergeError::from(MergeConfigError::NoValue), ConfMergeError);
}

#[test]
fn default_init_trampolines() {
    let mut cf = http_conf();
    let mut conf = DefaultInit::<u32>::create_unsafe(&mut cf).unwrap();
    assert_eq!(conf, 0);
    assert_eq!(DefaultInit::<u32>::init_unsafe(&mut cf, &mut conf), NGX_CONF_OK);
    assert_eq!(created::<u8>(Err(ConfCreateError)), None);
    assert_eq!(created(Ok(9u8)), Some(9));
}

#[test]
fn phases_in_host_order() {
    assert_eq!(Phase::PostRead.into_ngx_http_phases(), 0);
    assert_eq!(Phase::ServerRewrite.into_ngx_http_phases(), 1);
    assert_eq!(Phase::FindConfig.into_ngx_http_phases(), 2);
    assert_eq!(Phase::Rewrite.into_ngx_http_phases(), 3);
    assert_eq!(Phase::PostRewrite.into_ngx_http_phases(), 4);
    assert_eq!(Phase::PreAccess.into_ngx_http_phases(), 5);
    assert_eq!(Phase::Access.into_ngx_http_phases(), 6);
    assert_eq!(Phase::PostAccess.into_ngx_http_phases(), 7);
    assert_eq!(Phase::PreContent.into_ngx_http_phases(), 8);
    assert_eq!(Phase::Content.into_ngx_http_phases(), 9);
    assert_eq!(Phase::Log.into_ngx_http_phases(), 10);
}

#[test]
fn set_handler_appends_to_its_phase() {
    let mut cf = http_conf();
    assert_eq!(cf.set_handler::<ContentHandler>(), Ok(()));
    assert_eq!(cf.set_handler::<ContentHandler>(), Ok(()));
    assert_eq!(cf.set_handler::<AccessHandler>(), Ok(()));
    let m = cf.core_main_conf.unwrap();
    assert_eq!(m.phases[9].handlers, vec![Trampoline::PhaseHandler, Trampoline::PhaseHandler]);
    assert_eq!(m.phases[6].handlers, vec![Trampoline::PhaseHandler]);
    assert!(m.phases[0].handlers.is_empty());
    assert!(m.phases[10].handlers.is_empty());
}

#[test]
fn set_handler_without_http_core_fails() {
    let mut cf = empty_conf();
    assert_eq!(cf.set_handler::<ContentHandler>(), Err(Status(NGX_ERROR)));
    let mut short = NgxConf { core_main_conf: Some(HttpCoreMainConf { phases: Vec::new() }) };
    assert_eq!(short.set_handler::<AccessHandler>(), Err(Status(NGX_ERROR)));
    assert!(short.core_main_conf.unwrap().phases.is_empty());
}

#[test]
fn phase_handler_trampoline_returns_status() {
    let mut req = Request { uri: b"/index".to_vec() };
    assert_eq!(handle_func::<ContentHandler>(&mut req), NGX_OK);
    let mut empty = Request { uri: Vec::new() };
    assert_eq!(handle_func::<ContentHandler>(&mut empty), 404);
    assert_eq!(handle_func::<AccessHandler>(&mut empty), 403);
}

#[test]
fn flag_sets_or_the_host_bits() {
    let c = CommandContextFlagSet::empty()
        .union(CommandContextFlag::HttpMain)
        .union(CommandContextFlag::HttpLoc);
    assert_eq!(c.to_ngx_uint(), 0x0A00_0000);
    let c2 = c.union(CommandContextFlag::HttpMain).union(CommandContextFlag::HttpSrv);
    assert_eq!(c2.to_ngx_uint(), 0x0E00_0000);
    assert_eq!(CommandContextFlagSet::empty().to_ngx_uint(), 0);
    let a = CommandArgFlagSet::empty().union(CommandArgFlag::Take2);
    assert_eq!(a.to_ngx_uint(), 4);
    assert_eq!(a.union(CommandArgFlag::Take1).to_ngx_uint(), 6);
    assert_eq!(CommandArgFlagSet::empty().to_ngx_uint(), 0);
}

#[test]
fn raw_words_round_trip() {
    assert_eq!(ModuleSignature::from_ngx_uint(NGX_HTTP_MODULE).to_ngx_uint(), 0x5054_5448);
    assert_eq!(CommandOffset::from_ngx_uint(16).to_ngx_uint(), 16);
}

#[test]
fn exported_module_arrays_end_with_null() {
    let foo: &'static NgxModule<Foo> = Box::leak(Box::new(
        NgxHttpModule::<FooBarHttpModule>::new(leak_commands(
            NgxModuleCommandsBuilder::<Foo, 1>::new().build(),
        ))
        .0,
    ));
    let busy: &'static NgxModule<Busy> = Box::leak(Box::new(
        NgxHttpModule::<BusyHttpModule>::new(leak_commands(
            NgxModuleCommandsBuilder::<Busy, 1>::new().build(),
        ))
        .0,
    ));
    let mods = NgxModulesBuilder::<3>::new().add(foo).add(busy).build();
    assert!(std::ptr::eq(mods[0].unwrap(), &foo.record));
    assert!(std::ptr::eq(mods[1].unwrap(), &busy.record));
    assert!(mods[2].is_none());
    assert_eq!(NgxModulesBuilder::<2>::new().add(foo).add(busy).len(), 2);
    let names = NgxModuleNamesBuilder::<3>::new().add::<Foo>().add::<Busy>().build();
    assert_eq!(names, [Some("foo_bar_module"), Some("busy_module"), None]);
    assert_eq!(NgxModuleNamesBuilder::<1>::new().add::<Foo>().len(), 1);
}

#[test]
fn module_order_is_one_null_entry() {
    assert_eq!(ngx_module_order(), [None]);
}

#[test]
fn default_merge_applies_field_law() {
    let mut cf = http_conf();
    let mut prev = LocConf { x: Some(1) };
    let mut conf = LocConf { x: None };
    assert_eq!(DefaultMerge::<LocConf>::merge(&mut cf, &mut prev, &mut conf), Ok(()));
    assert_eq!(conf.x, Some(1));
    assert_eq!(prev.x, Some(1));
    let mut conf = LocConf { x: Some(2) };
    assert_eq!(DefaultMerge::<LocConf>::merge(&mut cf, &mut prev, &mut conf), Ok(()));
    assert_eq!(conf.x, Some(2));
    assert_eq!(prev.x, Some(1));
}

#[test]
fn default_merge_of_one_optional_value() {
    let mut cf = http_conf();
    let mut prev: Option<i32> = Some(1);
    let mut cur: Option<i32> = None;
    assert_eq!(DefaultMerge::<Option<i32>>::merge(&mut cf, &mut prev, &mut cur), Ok(()));
    assert_eq!(cur, Some(1));
    let mut cur: Option<i32> = Some(2);
    assert_eq!(DefaultMerge::<Option<i32>>::merge(&mut cf, &mut prev, &mut cur), Ok(()));
    assert_eq!(cur, Some(2));
    assert_eq!(prev, Some(1));
    assert_eq!(DefaultMerge::<Option<i32>>::merge_unsafe(&mut cf, &mut prev, &mut cur), NGX_CONF_OK);
}
