use ffi_expose::marshal::{array_from_foreign, array_to_foreign, option_from_foreign, text_from_foreign, text_to_foreign};
use ffi_expose::runtime::{write_option, write_result, Destroy, IntoPlatformError, PlatformOption, Shim, ShimCall};

#[test]
fn destroy_wrapper_hands_over_its_value() {
    let d = Destroy::map_from(Box::new(41u32));
    assert_eq!(*d.get(), 41);
    assert_eq!(d.into_inner(), 41);
}

#[test]
fn platform_option_carries_nothing() {
    PlatformOption::ok();
    PlatformOption.into_platform_error();
}

#[test]
fn result_channel_is_zero_only_on_success() {
    let mut out = None;
    assert_eq!(write_result(Ok::<u8, u16>(7), &mut out), 0);
    assert_eq!(out, Some(7));
    let mut out = Some(3u8);
    assert_eq!(write_result(Err::<u8, u16>(0), &mut out), 1);
    assert_eq!(out, Some(3));
    assert_eq!(write_result(Err::<u8, u16>(65535), &mut out), 65536);
}

#[test]
fn option_channel_leaves_slot_when_absent() {
    let mut out = Some(9u32);
    assert!(!write_option(None, &mut out));
    assert_eq!(out, Some(9));
    assert!(write_option(Some(4), &mut out));
    assert_eq!(out, Some(4));
    assert_eq!(option_from_foreign(true, &out), Some(4));
    assert_eq!(option_from_foreign(false, &out), None);
}

#[test]
fn text_round_trip() {
    let text = b"hello".to_vec();
    let buf = text_to_foreign(&text);
    assert_eq!(buf, b"hello\0".to_vec());
    assert_eq!(text_from_foreign(&buf), text);
    assert_eq!(text_from_foreign(&text_to_foreign(&vec![])), Vec::<u8>::new());
}

#[test]
fn text_stops_at_embedded_null() {
    let buf = text_to_foreign(&b"ab\0cd".to_vec());
    assert_eq!(text_from_foreign(&buf), b"ab".to_vec());
}

#[test]
fn array_round_trip_keeps_count() {
    let (elems, count) = array_to_foreign(vec![1u16, 2, 3]);
    assert_eq!(count, 3);
    assert_eq!(array_from_foreign(elems, count), vec![1, 2, 3]);
    let (e, c) = array_to_foreign(Vec::<u8>::new());
    assert_eq!(c, 0);
    assert_eq!(array_from_foreign(vec![5u8, 6], 1), vec![5]);
    assert!(array_from_foreign(e, c).is_empty());
}

#[test]
fn shim_forwards_with_handle_first() {
    let s = Shim::new(77, 2);
    assert_eq!(s.method_count(), 2);
    match s.invoke(1, vec![5, 6]) {
        ShimCall::Method { slot, args } => {
            assert_eq!(slot, 1);
            assert_eq!(args, vec![77, 5, 6]);
        }
        other => panic!("unexpected call {:?}", other),
    }
}

#[test]
fn shim_destroy_calls_destructor_once() {
    let s = Shim::new(12, 1);
    let mut destroyed = 0;
    let mut methods = 0;
    let calls = vec![s.invoke(0, vec![]), s.destroy()];
    for c in calls {
        match c {
            ShimCall::Destroy { handle } => {
                assert_eq!(handle, 12);
                destroyed += 1;
            }
            ShimCall::Method { .. } => {
                assert_eq!(destroyed, 0);
                methods += 1;
            }
        }
    }
    assert_eq!(destroyed, 1);
    assert_eq!(methods, 1);
}
