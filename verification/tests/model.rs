use kmod::Context;
use kmod::Database;
use kmod::Errno;
use kmod::Error;
use kmod::ModuleRecord;

const EEXIST: i32 = 17;
const EBUSY: i32 = 16;
const ENOENT: i32 = 2;

fn record(name: &str, size: i64, refcount: i32, path: &str, options: &str) -> ModuleRecord {
    ModuleRecord {
        name: name.to_string(),
        size,
        refcount,
        path: path.to_string(),
        options: options.to_string(),
        holders: Vec::new(),
        dependencies: Vec::new(),
        insert_status: 0,
        remove_status: 0,
    }
}

fn database(modules: Vec<ModuleRecord>) -> Database {
    Database {
        modules,
        session_ok: true,
        list_status: 0,
        lookup_status: ENOENT,
    }
}

/// Two loaded modules, `tun` and `bridge`, with `bridge` depending on
/// `tun` (so `tun` holds `bridge` as a dependent).
fn tun_bridge() -> Database {
    let mut tun = record("tun", 57344, 1, "/lib/modules/tun.ko", "");
    tun.holders = vec![1];
    let mut bridge = record("bridge", 307200, 0, "/lib/modules/bridge.ko", "vlan_default_pvid=0");
    bridge.dependencies = vec![0];
    database(vec![tun, bridge])
}

#[test]
fn lsmod() {
    let ctx = Context::new(tun_bridge()).unwrap();

    let mut modules = ctx.modules_loaded().unwrap();
    while let Some(module) = modules.next() {
        let name = module.name();
        let refcount = module.refcount();
        let size = module.size();

        let mut holders: Vec<String> = Vec::new();
        let mut it = module.holders();
        while let Some(holder) = it.next() {
            holders.push(holder.name());
        }

        println!("{:<19} {:8}  {} {:?}", name, size, refcount, holders);
    }
}

#[test]
fn enumeration_length_matches_database() {
    let db = tun_bridge();
    let expected = db.modules.len();
    let ctx = Context::new(db).unwrap();
    let mut it = ctx.modules_loaded().unwrap();
    let mut count = 0;
    while let Some(_) = it.next() {
        count += 1;
    }
    assert_eq!(count, expected);
}

#[test]
fn enumeration_of_empty_database_yields_nothing() {
    let ctx = Context::new(database(Vec::new())).unwrap();
    let mut it = ctx.modules_loaded().unwrap();
    assert!(it.next().is_none());
}

#[test]
fn accessors_report_configured_values() {
    let ctx = Context::new(tun_bridge()).unwrap();
    let module = ctx.module_new_from_name("bridge").unwrap();
    assert_eq!(module.name(), "bridge");
    assert_eq!(module.size(), 307200);
    assert_eq!(module.refcount(), 0);
    assert_eq!(module.path(), "/lib/modules/bridge.ko");
    assert_eq!(module.options(), "vlan_default_pvid=0");
}

#[test]
fn lookup_by_path_finds_the_record() {
    let ctx = Context::new(tun_bridge()).unwrap();
    let module = ctx.module_new_from_path("/lib/modules/tun.ko").unwrap();
    assert_eq!(module.name(), "tun");
}

#[test]
fn lookup_miss_carries_the_configured_code() {
    let ctx = Context::new(tun_bridge()).unwrap();
    let err = ctx.module_new_from_name("nosuch").unwrap_err();
    assert_eq!(err, Error::Errno(Errno(ENOENT)));
    assert_eq!(err.errno(), Some(Errno(ENOENT)));
    let err = ctx.module_new_from_path("/nosuch.ko").unwrap_err();
    assert_eq!(err, Error::Errno(Errno(ENOENT)));
}

#[test]
fn exhausted_iterator_stays_exhausted() {
    let ctx = Context::new(tun_bridge()).unwrap();
    let mut it = ctx.modules_loaded().unwrap();
    while let Some(_) = it.next() {}
    for _ in 0..5 {
        assert!(it.next().is_none());
    }
}

#[test]
fn produced_handles_survive_the_iterator() {
    let ctx = Context::new(tun_bridge()).unwrap();
    let mut it = ctx.modules_loaded().unwrap();
    let first = it.next().unwrap();
    drop(it);
    assert_eq!(first.name(), "tun");
    assert_eq!(first.size(), 57344);
}

#[test]
fn nul_in_name_is_rejected_before_any_native_call() {
    let ctx = Context::new(tun_bridge()).unwrap();
    let err = ctx.module_new_from_name("tu\0n").unwrap_err();
    assert_eq!(err, Error::Nul);
    assert_eq!(err.errno(), None);
}

#[test]
fn nul_in_path_is_rejected_before_any_native_call() {
    let ctx = Context::new(tun_bridge()).unwrap();
    let err = ctx.module_new_from_path("/lib\0/tun.ko").unwrap_err();
    assert_eq!(err, Error::Nul);
}

#[test]
fn nul_in_an_option_is_rejected_before_any_native_call() {
    let mut faulty = record("snd", 1, 0, "/lib/modules/snd.ko", "");
    faulty.insert_status = EEXIST;
    let ctx = Context::new(database(vec![faulty])).unwrap();
    let module = ctx.module_new_from_name("snd").unwrap();
    let err = module.insert_module(0, vec!["index=1".to_string(), "na\0me".to_string()])
        .unwrap_err();
    assert_eq!(err, Error::Nul);
}

#[test]
fn scenario_tun_holds_bridge() {
    let ctx = Context::new(tun_bridge()).unwrap();

    let mut it = ctx.modules_loaded().unwrap();
    let first = it.next().unwrap();
    let second = it.next().unwrap();
    assert_eq!(first.name(), "tun");
    assert_eq!(second.name(), "bridge");
    assert!(it.next().is_none());

    let mut bridge_holders = second.holders();
    assert!(bridge_holders.next().is_none());

    let mut tun_holders = first.holders();
    let holder = tun_holders.next().unwrap();
    assert_eq!(holder.name(), "bridge");
    assert!(tun_holders.next().is_none());
}

#[test]
fn dependencies_follow_the_record() {
    let ctx = Context::new(tun_bridge()).unwrap();
    let bridge = ctx.module_new_from_name("bridge").unwrap();
    let mut deps = bridge.dependencies();
    assert_eq!(deps.next().unwrap().name(), "tun");
    assert!(deps.next().is_none());
}

#[test]
fn insert_on_present_module_surfaces_configured_code() {
    let mut dup = record("loop", 1, 0, "/lib/modules/loop.ko", "");
    dup.insert_status = EEXIST;
    let ctx = Context::new(database(vec![dup])).unwrap();
    let module = ctx.module_new_from_name("loop").unwrap();
    let err = module.insert_module(0, Vec::new()).unwrap_err();
    assert_eq!(err, Error::Errno(Errno(EEXIST)));
}

#[test]
fn remove_of_module_in_use_surfaces_configured_code() {
    let mut busy = record("tun", 1, 3, "/lib/modules/tun.ko", "");
    busy.remove_status = EBUSY;
    let ctx = Context::new(database(vec![busy])).unwrap();
    let module = ctx.module_new_from_name("tun").unwrap();
    let err = module.remove_module(0).unwrap_err();
    assert_eq!(err, Error::Errno(Errno(EBUSY)));
}

#[test]
fn insert_and_remove_succeed_when_the_kernel_agrees() {
    let ctx = Context::new(database(vec![record("tun", 1, 0, "/t", "")])).unwrap();
    let module = ctx.module_new_from_name("tun").unwrap();
    assert_eq!(module.insert_module(0, vec!["mode=1".to_string()]), Ok(()));
    assert_eq!(module.remove_module(0), Ok(()));
}

#[test]
fn joining_no_options_gives_the_empty_string() {
    let joined = kmod::join_options(&Vec::new());
    assert_eq!(joined, "");
}

#[test]
fn joining_options_separates_with_single_spaces() {
    let joined = kmod::join_options(&vec!["a=1".to_string(), "b=2".to_string()]);
    assert_eq!(joined, "a=1 b=2");
    let single = kmod::join_options(&vec!["quiet".to_string()]);
    assert_eq!(single, "quiet");
}

#[test]
fn nul_scan_and_string_equality() {
    assert!(kmod::contains_nul("a\0b"));
    assert!(!kmod::contains_nul("ab"));
    assert!(kmod::str_eq("tun", "tun"));
    assert!(!kmod::str_eq("tun", "tan"));
    assert!(!kmod::str_eq("tun", "tunx"));
}

#[test]
fn session_failure_is_a_construction_error() {
    let mut db = tun_bridge();
    db.session_ok = false;
    assert_eq!(Context::new(db).unwrap_err(), Error::Construction);
}

#[test]
fn ill_formed_database_is_a_construction_error() {
    let mut stray = record("tun", 1, 0, "/t", "");
    stray.holders = vec![7];
    assert_eq!(Context::new(database(vec![stray])).unwrap_err(), Error::Construction);
}

#[test]
fn failing_enumeration_carries_the_configured_code() {
    let mut db = tun_bridge();
    db.list_status = 13;
    let ctx = Context::new(db).unwrap();
    let err = ctx.modules_loaded().unwrap_err();
    assert_eq!(err, Error::Errno(Errno(13)));
}
