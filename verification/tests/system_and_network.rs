use mre_sdk::app::{current_process, current_state, is_active, is_background, set_background, AtexitHooks, Event,
    MAX_SUBSYSTEMS};
use mre_sdk::entropy::mre_custom_entropy;
use mre_sdk::ffi::net::vm_soc_dns_result;
use mre_sdk::ffi::pcm::find_pcm_open;
use mre_sdk::ffi::time::vm_time_t;
use mre_sdk::fs::copy::{copy_status, CopyStatus, CopyTable, ERR_NO_COPY_SLOT};
use mre_sdk::fs::file::{file_size, flush_result, io_count, seek_args, seek_result, MreIoError, SeekFrom};
use mre_sdk::logger::{app_log, format_log_line, level_number, LogLevel};
use mre_sdk::msg::{is_task_pump_message, MsgError, PumpAction, RetryAction, TaskPump, INTERNAL_TASK_MSG_ID};
use mre_sdk::net::dns::{completes_at_once, parse_dns_result, resolve_host, DnsPoll, Ipv4Addr, ResolverState};
use mre_sdk::net::tcp::{connect_handle, ConnectStep, IoStep, MreTcpError, MreTcpStack, SocketState, TcpErrorKind,
    TcpManager, TcpStream, Wakeups, VM_TCP_EVT_CAN_READ, VM_TCP_EVT_CAN_WRITE, VM_TCP_EVT_CONNECTED,
    VM_TCP_EVT_HOST_NOT_FOUND, VM_TCP_EVT_PIPE_BROKEN, VM_TCP_EVT_PIPE_CLOSED};
use mre_sdk::process::{list_processes, Process, ProcessState};
use mre_sdk::res::{get_resource_offset, load_resource, read_resource_chunk, to_c_string, ResourceData};
use mre_sdk::sys::{get_country_code, get_device_model, get_sys_property, get_system_lang_code, get_system_locale,
    get_system_version};
use mre_sdk::time::{now, DateTime};

#[test]
fn system_messages_become_events() {
    assert_eq!(Event::from_message(4, 17), Event::Create { param: 17 });
    assert_eq!(Event::from_message(1, 0), Event::Paint);
    assert_eq!(Event::from_message(5, 0), Event::Quit);
    assert_eq!(Event::from_message(42, 9), Event::Unknown(42, 9));
    assert!(Event::from_message(2, 0).resumes_gui_timers());
    assert!(Event::from_message(6, 0).suspends_gui_timers());
    assert!(!Event::Quit.resumes_gui_timers() && !Event::Quit.suspends_gui_timers());
}

#[test]
fn current_process_is_cached_once_known() {
    let mut cache = 0;
    assert_eq!(current_process(&mut cache, 0), None);
    assert_eq!(cache, 0);
    let p = current_process(&mut cache, 12).unwrap();
    assert_eq!((p.handle(), cache), (12, 12));
    let q = current_process(&mut cache, 99).unwrap();
    assert_eq!(q.handle(), 12);
    assert_eq!(current_state(Some(p), 1), ProcessState::Foreground);
    assert_eq!(current_state(None, 1), ProcessState::Unknown);
    assert!(is_active(ProcessState::Foreground) && !is_active(ProcessState::Background));
    assert!(is_background(ProcessState::Background));
    assert_eq!(set_background(0), Ok(()));
    assert_eq!(set_background(-2), Err(-2));
}

#[test]
fn process_states_and_messages() {
    assert_eq!(ProcessState::from_i32(0), ProcessState::Unload);
    assert_eq!(ProcessState::from_i32(5), ProcessState::Inactive);
    assert_eq!(ProcessState::from_i32(9), ProcessState::Unknown);
    assert_eq!(Process::from_handle(0), None);
    assert_eq!(Process::from_handle(-4), None);
    let me = Process::from_handle(3).unwrap();
    let other = Process::from_handle(8).unwrap();
    assert_eq!(me.send_msg(Some(me), 2000), Err(MsgError::TargetIsSelf));
    assert_eq!(other.send_msg(Some(me), 999), Err(MsgError::InvalidMsgId));
    assert_eq!(other.send_msg(Some(me), 1000), Ok(()));
    assert_eq!(other.post_msg(None, 1000, 1), Ok(()));
    assert_eq!(other.post_msg(None, 1000, 0), Err(MsgError::QueueFull));
    assert_eq!(Process::spawn(Some(me)), 3);
    assert_eq!(Process::spawn(None), 0);
}

#[test]
fn process_listing_keeps_positive_handles_in_order() {
    let list = list_processes(0, &[5, 0, -1, 7]);
    let handles: Vec<i32> = list.iter().map(|p| p.handle()).collect();
    assert_eq!(handles, vec![5, 7]);
    assert!(list_processes(-1, &[5, 7]).is_empty());
}

#[test]
fn task_pump_posts_one_wake_up() {
    assert!(is_task_pump_message(6, INTERNAL_TASK_MSG_ID, 6));
    assert!(!is_task_pump_message(7, INTERNAL_TASK_MSG_ID, 6));
    assert!(!is_task_pump_message(0, INTERNAL_TASK_MSG_ID, 0));
    let mut pump = TaskPump::new();
    assert_eq!(pump.after_enqueue(0), PumpAction::Nothing);
    assert_eq!(pump.after_enqueue(6), PumpAction::PostWake);
    assert_eq!(pump.after_post(1), RetryAction::Nothing);
    assert_eq!(pump.after_enqueue(6), PumpAction::Nothing);
    pump.on_wake();
    assert_eq!(pump.after_enqueue(6), PumpAction::PostWake);
    assert_eq!(pump.after_post(0), RetryAction::DispatchAndRepost);
    assert_eq!(pump.after_post(0), RetryAction::Nothing);
    pump.after_dispatch();
    assert_eq!(pump.after_post(0), RetryAction::DispatchAndRepost);
}

#[test]
fn atexit_hooks_register_once_each() {
    let mut hooks = AtexitHooks::new();
    assert_eq!(hooks.register(10), Some(0));
    assert_eq!(hooks.register(20), Some(1));
    assert_eq!(hooks.register(10), None);
    assert_eq!(hooks.registered(), vec![10, 20]);
    for id in 0..MAX_SUBSYSTEMS {
        hooks.register(100 + id);
    }
    assert_eq!(hooks.registered().len(), MAX_SUBSYSTEMS);
    assert_eq!(hooks.register(999), None);
}

#[test]
fn system_texts_are_cleaned() {
    assert_eq!(get_sys_property(0, b"abc"), None);
    assert_eq!(get_sys_property(5, b"v1.2\0junk"), Some("v1.2".to_string()));
    assert_eq!(get_sys_property(2, &[0xFF, 0xFE]), None);
    assert_eq!(get_country_code(None), None);
    assert_eq!(get_country_code(Some(&b"\0"[..])), None);
    assert_eq!(get_country_code(Some(&b"uk-UA\0"[..])), Some("uk-UA".to_string()));
    assert_eq!(get_device_model(Some("\0 Nokia 225 \0\0".to_string())), "Nokia 225");
    assert_eq!(get_device_model(None), "Unknown");
    assert_eq!(get_system_version(Some(" 11C ".to_string())), "11C");
    assert_eq!(get_system_locale(Some(" \0".to_string())), "en-US");
    assert_eq!(get_system_locale(None), "en-US");
    assert_eq!(get_system_locale(Some("de_DE".to_string())), "de_DE");
}

#[test]
fn language_code_is_lowercase_prefix() {
    assert_eq!(get_system_lang_code("EN-us"), "en");
    assert_eq!(get_system_lang_code("Uk_UA"), "uk");
    assert_eq!(get_system_lang_code("FR"), "fr");
    assert_eq!(get_system_lang_code("-x"), "");
}

#[test]
fn log_lines_are_tab_separated_and_nul_terminated() {
    let date = DateTime { year: 2024, month: 3, day: 7, hour: 9, minute: 5, second: 0 };
    assert_eq!(
        format_log_line(date, LogLevel::Warn, Some("src/main.rs"), Some(42), "low battery"),
        "2024-03-07 09:05:00\t3\tsrc/main.rs:42\tlow battery\0"
    );
    assert_eq!(
        format_log_line(DateTime::default(), LogLevel::Trace, None, None, ""),
        "0000-00-00 00:00:00\t6\tunknown:0\t\0"
    );
    let neg = DateTime { year: -5, month: 12, day: 31, hour: 23, minute: 59, second: 59 };
    assert_eq!(format_log_line(neg, LogLevel::Error, None, Some(7), "x"), "-005-12-31 23:59:59\t2\tunknown:7\tx\0");
    assert_eq!(level_number(LogLevel::Info), 4);
    assert_eq!(level_number(LogLevel::Debug), 5);
}

#[test]
fn app_log_adds_one_terminator() {
    assert_eq!(app_log("hi"), "hi\0");
    assert_eq!(app_log("hi\0"), "hi\0");
    assert_eq!(app_log(""), "\0");
}

#[test]
fn record_lines_take_the_record_fields() {
    let record = log::Record::builder()
        .level(log::Level::Info)
        .file(Some("app.rs"))
        .line(Some(3))
        .build();
    let date = DateTime { year: 2023, month: 1, day: 2, hour: 3, minute: 4, second: 5 };
    assert_eq!(mre_sdk::logger::app_log_record(&record, date), "2023-01-02 03:04:05\t4\tapp.rs:3\t\0");
}

#[test]
fn clock_answers() {
    let t = vm_time_t { year: 2025, mon: 6, day: 1, hour: 12, min: 30, sec: 15 };
    assert_eq!(now(0, t), Some(DateTime { year: 2025, month: 6, day: 1, hour: 12, minute: 30, second: 15 }));
    assert_eq!(now(-1, t), None);
    assert_eq!(DateTime::from(t).minute, 30);
}

#[test]
fn dns_answers_low_byte_first() {
    let raw = vm_soc_dns_result { address: [0x0100_007F, 0x0403_0201, 0, 0, 0], num: 2, error_cause: 0 };
    let addrs = parse_dns_result(&raw).unwrap();
    assert_eq!(addrs, vec![Ipv4Addr { a: 127, b: 0, c: 0, d: 1 }, Ipv4Addr { a: 1, b: 2, c: 3, d: 4 }]);
    assert_eq!(addrs[1].octets(), [1, 2, 3, 4]);
    let none = vm_soc_dns_result { address: [0; 5], num: 0, error_cause: 17 };
    assert_eq!(parse_dns_result(&none), Err(17));
    assert_eq!(Ipv4Addr::from_vmuint(0xFF00_0000), Ipv4Addr { a: 0, b: 0, c: 0, d: 255 });
}

#[test]
fn dns_lookups_queue_behind_each_other() {
    let mut first = resolve_host(1, "example.org");
    assert_eq!(first.host, "example.org");
    assert_eq!(first.poll_step(false), DnsPoll::Start);
    assert_eq!(first.state, ResolverState::WaitingForCallback);
    assert_eq!(first.poll_step(false), DnsPoll::Finish);
    let mut second = resolve_host(1, "example.com");
    assert_eq!(second.poll_step(true), DnsPoll::Enqueue);
    assert_eq!(second.poll_step(true), DnsPoll::Wait);
    assert_eq!(second.poll_step(false), DnsPoll::Finish);
    assert!(completes_at_once(0));
    assert!(completes_at_once(-1));
    assert!(!completes_at_once(-2));
}

#[test]
fn tcp_events_update_state_and_wake_tasks() {
    let mut s = SocketState::new();
    assert_eq!(s.connect_step(), ConnectStep::Wait);
    assert_eq!(s.on_event(VM_TCP_EVT_CONNECTED), Wakeups { connect: true, read: false, write: false });
    assert_eq!(s.connect_step(), ConnectStep::Connected);
    assert_eq!(s.write_step(), IoStep::Attempt);
    assert_eq!(s.read_step(), IoStep::Wait);
    assert_eq!(s.on_event(VM_TCP_EVT_CAN_READ), Wakeups { connect: false, read: true, write: false });
    assert_eq!(s.read_step(), IoStep::Attempt);
    assert_eq!(s.after_read(0), None);
    assert_eq!(s.read_step(), IoStep::Wait);
    assert_eq!(s.on_event(VM_TCP_EVT_CAN_WRITE), Wakeups { connect: false, read: false, write: true });
    assert_eq!(s.after_write(-3), None);
    assert_eq!(s.write_step(), IoStep::Wait);
    assert_eq!(s.on_event(99), Wakeups { connect: false, read: false, write: false });
    assert_eq!(s.on_event(VM_TCP_EVT_PIPE_BROKEN), Wakeups { connect: true, read: true, write: true });
    assert_eq!(s.read_step(), IoStep::Fail(MreTcpError(VM_TCP_EVT_PIPE_BROKEN)));
    assert_eq!(s.write_step(), IoStep::Fail(MreTcpError(VM_TCP_EVT_PIPE_BROKEN)));
    s.on_event(VM_TCP_EVT_CAN_READ);
    assert_eq!(s.read_step(), IoStep::Fail(MreTcpError(VM_TCP_EVT_PIPE_BROKEN)));
}

#[test]
fn tcp_reads_and_writes_report_counts() {
    let mut s = SocketState::new();
    assert_eq!(s.after_read(12), Some(Ok(12)));
    assert_eq!(s.after_write(0), Some(Ok(0)));
    assert_eq!(s.after_read(-1), Some(Ok(0)));
    assert_eq!(s.read_step(), IoStep::Fail(MreTcpError(-1)));
    assert_eq!(connect_handle(-5), Err(MreTcpError(-5)));
    assert_eq!(connect_handle(3), Ok(3));
}

#[test]
fn tcp_error_kinds() {
    assert_eq!(MreTcpError(VM_TCP_EVT_HOST_NOT_FOUND).kind(), TcpErrorKind::NotFound);
    assert_eq!(MreTcpError(VM_TCP_EVT_PIPE_BROKEN).kind(), TcpErrorKind::ConnectionReset);
    assert_eq!(MreTcpError(VM_TCP_EVT_PIPE_CLOSED).kind(), TcpErrorKind::ConnectionReset);
    assert_eq!(MreTcpError(-1).kind(), TcpErrorKind::OutOfMemory);
    assert_eq!(MreTcpError(42).kind(), TcpErrorKind::Other);
}

#[test]
fn tcp_manager_routes_events_by_handle() {
    let mut m = TcpManager::new();
    assert_eq!(m.state(4), None);
    m.register(4);
    m.register(9);
    assert_eq!(m.state(4), Some(SocketState::new()));
    assert_eq!(m.on_event(4, VM_TCP_EVT_CONNECTED), Wakeups { connect: true, read: false, write: false });
    assert!(m.state(4).unwrap().is_connected);
    assert!(!m.state(9).unwrap().is_connected);
    assert_eq!(m.on_event(5, VM_TCP_EVT_CONNECTED), Wakeups { connect: false, read: false, write: false });
    assert_eq!(m.state(5), None);
    let mut s = m.state(9).unwrap();
    s.on_event(VM_TCP_EVT_HOST_NOT_FOUND);
    m.store(9, s);
    assert_eq!(m.state(9).unwrap().connect_step(), ConnectStep::Fail(MreTcpError(VM_TCP_EVT_HOST_NOT_FOUND)));
    m.unregister(4);
    assert_eq!(m.state(4), None);
    assert_eq!(m.on_event(4, VM_TCP_EVT_CAN_READ), Wakeups { connect: false, read: false, write: false });
}

#[test]
fn tcp_stack_writes_the_host_as_dotted_quad() {
    let (host, port, apn) = MreTcpStack.connect_target(Ipv4Addr { a: 192, b: 168, c: 0, d: 10 }, 8080);
    assert_eq!((host.as_str(), port, apn), ("192.168.0.10", 8080, 1));
    let (host, _, _) = MreTcpStack.connect_target(Ipv4Addr { a: 0, b: 9, c: 10, d: 255 }, 1);
    assert_eq!(host, "0.9.10.255");
    assert_eq!(TcpStream::from_handle(7).handle(), 7);
}

#[test]
fn entropy_fills_four_bytes_low_first() {
    let mut buf = [0u8; 6];
    let word = 3u32.wrapping_mul(5 ^ 0xDEADBEEF);
    assert_eq!(mre_custom_entropy(&mut buf, 0, 3, 5), 4);
    assert_eq!(&buf[..4], &word.to_le_bytes());
    assert_eq!(mre_custom_entropy(&mut buf, 4, 3, 5), 6);
    assert_eq!(&buf[4..], &word.to_le_bytes()[..2]);
}

#[test]
fn pcm_pattern_is_found_on_word_boundaries() {
    let magic = [0x70u8, 0xB5, 0x06, 0x00, 0x0D, 0x00, 0x00, 0x22, 0x11, 0x00, 0x1C, 0x20];
    let mut mem = vec![0u8; 64];
    mem[8..20].copy_from_slice(&magic);
    assert_eq!(find_pcm_open(&mem, 64), Some(8));
    assert_eq!(find_pcm_open(&mem, 8), None);
    let mut odd = vec![0u8; 64];
    odd[6..18].copy_from_slice(&magic);
    assert_eq!(find_pcm_open(&odd, 64), None);
    assert_eq!(find_pcm_open(&magic[..11], 4), None);
}

#[test]
fn copy_slots_bind_handles_on_prepare() {
    assert_eq!(copy_status(2, 10, 4), Some(CopyStatus::Progress { total: 10, completed: 4 }));
    assert_eq!(copy_status(-1, 0, 0), Some(CopyStatus::Fail));
    assert_eq!(copy_status(7, 0, 0), None);
    let mut t = CopyTable::new();
    assert_eq!(t.reserve(), Ok(0));
    assert_eq!(t.reserve(), Ok(1));
    assert_eq!(t.on_progress(0, 55), Some(0));
    assert_eq!(t.on_progress(2, 55), Some(0));
    assert_eq!(t.on_progress(2, 56), None);
    assert_eq!(t.after_handler(0, 2, true), 0);
    assert_eq!(t.after_handler(0, 3, true), 0);
    assert_eq!(t.on_progress(2, 55), None);
    assert_eq!(t.cancel_pending(), Some(1));
    assert_eq!(t.cancel_pending(), None);
    for _ in 0..4 {
        assert!(t.reserve().is_ok());
    }
    assert_eq!(t.reserve(), Err(ERR_NO_COPY_SLOT));
    assert_eq!(t.after_handler(2, 1, false), -1);
    assert_eq!(t.reserve(), Ok(2));
}

#[test]
fn file_results() {
    assert_eq!(file_size(0, 1234), Ok(1234));
    assert_eq!(file_size(-2, 1234), Err(-2));
    assert_eq!(io_count(0, 16), Ok(16));
    assert_eq!(io_count(-9, 16), Err(MreIoError(-9)));
    assert_eq!(seek_args(SeekFrom::Start(10)), (10, 1));
    assert_eq!(seek_args(SeekFrom::Current(-4)), (-4, 2));
    assert_eq!(seek_args(SeekFrom::End(0)), (0, 3));
    assert_eq!(seek_args(SeekFrom::Start(0x1_0000_0005)), (5, 1));
    assert_eq!(seek_result(0, 42), Ok(42));
    assert_eq!(seek_result(-3, 42), Err(MreIoError(-3)));
    assert_eq!(seek_result(0, -8), Err(MreIoError(-8)));
    assert_eq!(flush_result(0), Ok(()));
    assert_eq!(flush_result(-1), Err(MreIoError(-1)));
}

#[test]
fn resources() {
    assert_eq!(to_c_string("logo.png"), b"logo.png\0".to_vec());
    assert_eq!(load_resource(true, 100), Some(100));
    assert_eq!(load_resource(true, 0), None);
    assert_eq!(load_resource(false, 100), None);
    assert_eq!(get_resource_offset(0), None);
    assert_eq!(get_resource_offset(512), Some(512));
    assert_eq!(read_resource_chunk(0), Ok(()));
    assert_eq!(read_resource_chunk(-1), Err(()));
    let data = ResourceData::from_bytes(vec![1, 2, 3]);
    assert_eq!((data.as_slice(), data.len()), (&[1u8, 2, 3][..], 3));
}
