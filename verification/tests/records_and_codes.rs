use mre_sdk::ffi::bitstream::vm_bitstream_sample_freq_enum;
use mre_sdk::ffi::image::vm_graphic_imgprop;
use mre_sdk::ffi::pcm::PcmStatus;
use mre_sdk::ffi::pmng::vm_process_property;
use mre_sdk::ffi::text::vm_graphic_font_size;
use mre_sdk::ffi::time::vm_time_t;
use mre_sdk::ffi::ucs2::to_ucs2;
use mre_sdk::fs::attributes::{FileAttributes, DIR};
use mre_sdk::fs::file::File;
use mre_sdk::fs::fs::{create_dir, path_exists, remove_dir, remove_file, rename};
use mre_sdk::fs::metadata::{metadata, Metadata};
use mre_sdk::fs::path::Path;
use mre_sdk::fs::readdir::{DirEntry, ReadDir, ReadDirStep};
use mre_sdk::graphics::blt::{MirrorDirection, RotateDegree};
use mre_sdk::graphics::canvas::Canvas;
use mre_sdk::graphics::image::{draw_result, get_properties, load_canvas, ImageProperties};
use mre_sdk::graphics::layer::LayerMode;
use mre_sdk::graphics::text::{font_style_flags, text_args, FontSize};
use mre_sdk::keyboard::state::KeypadMode;
use mre_sdk::net::{sockaddr_from_parts, IntoMreSockAddr};
use mre_sdk::process::{Process, ProcessState};
use mre_sdk::sys::fs::vm_fileinfo_ext;
use mre_sdk::sys::{get_dev_info, get_origin_release_verno, DevInfo, SysProperty};
use mre_sdk::task::yield_now;
use mre_sdk::time::DateTime;

fn time(year: i32, sec: i32) -> vm_time_t {
    vm_time_t { year, mon: 1, day: 2, hour: 3, min: 4, sec }
}

fn file_info(name: &str, attributes: u8, size: u32) -> vm_fileinfo_ext {
    let mut full = [0u16; 260];
    for (i, u) in name.encode_utf16().enumerate() {
        full[i] = u;
    }
    vm_fileinfo_ext {
        filefullname: full,
        filename: [0; 8],
        extension: [0; 3],
        attributes,
        create_datetime: time(2020, 1),
        modify_datetime: time(2021, 2),
        filesize: size,
        drive: 0,
        stamp: 0,
    }
}

#[test]
fn pcm_status_numbers() {
    assert_eq!(PcmStatus::from_code(200), Some(PcmStatus::Success));
    assert_eq!(PcmStatus::from_code(218), Some(PcmStatus::FileIncomplete));
    assert_eq!(PcmStatus::from_code(199), None);
    assert_eq!(PcmStatus::from_code(219), None);
    assert_eq!(PcmStatus::DiskFull.code(), 216);
    assert_eq!(PcmStatus::from_code(PcmStatus::SeekEof.code()), Some(PcmStatus::SeekEof));
}

#[test]
fn sample_rates() {
    assert_eq!(vm_bitstream_sample_freq_enum::VM_BITSTREAM_SAMPLE_FREQ_44100.hertz(), 44100);
    assert_eq!(vm_bitstream_sample_freq_enum::VM_BITSTREAM_SAMPLE_FREQ_8000.hertz(), 8000);
    assert_eq!(vm_bitstream_sample_freq_enum::VM_BITSTREAM_SAMPLE_FREQ_TOTAL.hertz(), 0);
}

#[test]
fn platform_codes_of_modes() {
    assert_eq!(LayerMode::Base.to_mre(), 1);
    assert_eq!(LayerMode::CreateCanvas.to_mre(), 4);
    assert_eq!(FontSize::Large.to_mre(), vm_graphic_font_size::VM_LARGE_FONT);
    assert_eq!(FontSize::Small.to_mre(), vm_graphic_font_size::VM_SMALL_FONT);
    assert_eq!(KeypadMode::Number1Key.to_mre(), 0);
    assert_eq!(KeypadMode::Qwerty3Key.to_mre(), 5);
    assert_eq!(SysProperty::SubscriberId.code(), 1);
    assert_eq!(SysProperty::ReleaseBranch.code(), 8);
    assert_eq!(DevInfo::ModelNumber.code(), 0);
    assert_eq!(DevInfo::LanguagePack.code(), 2);
    assert_eq!(RotateDegree::Deg270.degrees(), 270);
    assert_eq!(MirrorDirection::Vertical.code(), 1);
}

#[test]
fn text_arguments() {
    assert_eq!(font_style_flags(true, false, true), (1, 0, 1));
    let (units, len) = text_args("Hi😀");
    assert_eq!(units, to_ucs2("Hi😀"));
    assert_eq!(len, 4);
    assert_eq!(text_args(""), (vec![0], 0));
}

#[test]
fn device_facts() {
    assert_eq!(get_dev_info(0, b"X2-00\0\0\0"), Some("X2-00".to_string()));
    assert_eq!(get_dev_info(0, b"\0abc"), None);
    assert_eq!(get_dev_info(-1, b"X2-00\0"), None);
    assert_eq!(get_origin_release_verno(3, b"1.0\0"), Some("1.0".to_string()));
    assert_eq!(get_origin_release_verno(0, b"1.0\0"), None);
}

#[test]
fn images_and_canvases() {
    let prop = vm_graphic_imgprop { width: 16, height: 9 };
    assert_eq!(get_properties(0, prop), Ok(ImageProperties { width: 16, height: 9 }));
    assert_eq!(get_properties(-500, prop), Err(-500));
    let canvas = load_canvas(77, ImageProperties { width: 16, height: 9 }).ok().unwrap();
    assert_eq!((canvas.handle(), canvas.width(), canvas.height()), (77, 16, 9));
    assert!(load_canvas(0, ImageProperties { width: 1, height: 1 }).is_err());
    assert_eq!(draw_result(0), Ok(()));
    assert_eq!(draw_result(-1), Err(-1));
    assert!(Canvas::create(0, 4, 4).is_err());
    let c = Canvas::create(5, 4, 3).ok().unwrap();
    let layer = c.bind_to_layer(8).ok().unwrap();
    assert_eq!((layer.handle(), layer.width(), layer.height()), (8, 4, 3));
    assert!(c.bind_to_layer(-1).is_err());
    assert_eq!(c.set_trans_color(0), Ok(()));
    assert_eq!(c.set_trans_color(1), Err(1));
}

#[test]
fn files_and_file_system_results() {
    assert_eq!(File::open(-4).err(), Some(-4));
    assert_eq!(File::create(3).ok().map(|f| f.handle()), Some(3));
    assert_eq!(File::append(9).ok().map(|f| f.handle()), Some(9));
    assert_eq!(remove_file(0), Ok(()));
    assert_eq!(remove_file(-2), Err(-2));
    assert_eq!(rename(-3), Err(-3));
    assert_eq!(create_dir(1), Ok(()));
    assert_eq!(remove_dir(-9), Err(-9));
}

#[test]
fn metadata_of_a_search_entry() {
    let info = file_info("e:\\music\\a.mp3", 0x20, 4096);
    let m = metadata(3, &info).unwrap();
    assert_eq!(m.size, 4096);
    assert_eq!(m.attributes, FileAttributes(0x20));
    assert!(m.is_file() && !m.is_dir());
    assert_eq!(m.created, DateTime { year: 2020, month: 1, day: 2, hour: 3, minute: 4, second: 1 });
    assert_eq!(m.modified.year, 2021);
    assert_eq!(metadata(-1, &info), Err(-1));
    assert!(path_exists(&Ok::<Metadata, i32>(m)));
    assert!(!path_exists(&Err(-1)));
    let dir = Metadata::from_info(&file_info("e:\\music", DIR, 0));
    assert!(dir.is_dir() && !dir.is_file());
}

#[test]
fn directory_listing_hands_out_the_first_entry_then_fetches() {
    assert!(ReadDir::open(-5, file_info("x", 0, 0)).is_err());
    let mut dir = ReadDir::open(4, file_info("e:\\a\\one.txt", 0, 1)).ok().unwrap();
    assert_eq!(dir.handle(), 4);
    match dir.next_step() {
        ReadDirStep::Entry(e) => assert_eq!(e.path.as_str(), "e:\\a\\one.txt"),
        _ => panic!("the first entry comes first"),
    }
    assert!(matches!(dir.next_step(), ReadDirStep::FetchNext));
    let next = dir.accept_next(0, &file_info("e:\\a\\two.txt", 0, 2)).unwrap();
    assert_eq!((next.path.as_str(), next.metadata.size), ("e:\\a\\two.txt", 2));
    assert!(dir.accept_next(-1, &file_info("", 0, 0)).is_none());
    assert!(matches!(dir.next_step(), ReadDirStep::Finished));
    let e = DirEntry::from_info(&file_info("e:\\b.png", 0, 7));
    assert_eq!(e.path, Path::from_absolute_string("e:\\b.png".to_string()));
}

#[test]
fn process_properties() {
    let mut path = [0u16; 261];
    for (i, u) in "games\\chess.vxp".encode_utf16().enumerate() {
        path[i] = u;
    }
    let prop = vm_process_property {
        pHandle: 5,
        appID: 1234,
        status: 2,
        pParentHandle: 0,
        process_type: 0,
        reserved: [0; 5],
        filePath: path,
    };
    let me = Process::from_handle(5).unwrap();
    let dir = Path::new("e:\\apps\\", None);
    let p = me.property(0, &prop, Some(&dir)).unwrap();
    assert_eq!((p.handle, p.app_id, p.status, p.parent), (me, 1234, ProcessState::Background, None));
    assert_eq!(p.file_path.as_str(), "e:\\apps\\games\\chess.vxp");
    assert!(me.property(-1, &prop, None).is_none());
    assert_eq!(me.state(4), ProcessState::Closing);
}

#[test]
fn socket_addresses_for_the_platform() {
    let raw = sockaddr_from_parts([10, 0, 0, 7], 443);
    assert_eq!((raw.addr_len, raw.port), (4, 443));
    assert_eq!(&raw.addr[..4], &[10, 0, 0, 7]);
    assert!(raw.addr[4..].iter().all(|&b| b == 0));
    let std_addr = core::net::SocketAddrV4::new(core::net::Ipv4Addr::new(192, 168, 1, 2), 8080);
    let converted = std_addr.into_mre_sockaddr();
    assert_eq!((converted.addr_len, converted.port), (4, 8080));
    assert_eq!(&converted.addr[..4], &[192, 168, 1, 2]);
}

#[test]
fn yield_gives_way_once() {
    let mut y = yield_now();
    assert!(!y.poll_step());
    assert!(y.poll_step());
    assert!(y.poll_step());
}
