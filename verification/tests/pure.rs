use h5swmr::config::{log_level, Command, InspectArgs, LogLevel, PlotArgs};
use h5swmr::dataspace::{build_tail_window, Selection};
use h5swmr::error::{check, ErrorKind, Operation, SwmrError};
use h5swmr::htype::{Family, NativePrimitiveType, TypeMatches};
use h5swmr::inspect::{index_along, preview_indices, preview_len};
use h5swmr::plot::{plan_read, plot_element, subsample, PlotElement, ReadPlan, UnsupportedRank};
use h5swmr::protocol::{Handle, Reply, Request, ResourceKind, Step};
use h5swmr::release::Teardown;

#[test]
fn tail_window_of_longer_dataset() {
    let (file, memory) = build_tail_window(40, 20);
    assert_eq!(file, Selection { start: 20, count: 20 });
    assert_eq!(memory, Selection { start: 0, count: 20 });
}

#[test]
fn tail_window_of_shorter_dataset_starts_at_zero() {
    let (file, memory) = build_tail_window(3, 10);
    assert_eq!(file, Selection { start: 0, count: 3 });
    assert_eq!(memory, Selection { start: 0, count: 3 });
}

#[test]
fn tail_window_of_empty_dataset_is_empty() {
    let (file, memory) = build_tail_window(0, 10);
    assert_eq!(file, Selection { start: 0, count: 0 });
    assert_eq!(memory, Selection { start: 0, count: 0 });
}

#[test]
fn tail_window_of_equal_sizes_and_of_limits() {
    assert_eq!(build_tail_window(7, 7).0, Selection { start: 0, count: 7 });
    assert_eq!(build_tail_window(7, 0).0, Selection { start: 7, count: 0 });
    assert_eq!(build_tail_window(u64::MAX, 1).0, Selection { start: u64::MAX - 1, count: 1 });
    assert_eq!(build_tail_window(u64::MAX, u64::MAX).0, Selection { start: 0, count: u64::MAX });
}

#[test]
fn negative_status_is_a_failure_of_the_right_kind() {
    let cases = [
        (Operation::OpenFile, ErrorKind::OpenFailed),
        (Operation::OpenDataset, ErrorKind::OpenFailed),
        (Operation::GetSpace, ErrorKind::OpenFailed),
        (Operation::GetType, ErrorKind::OpenFailed),
        (Operation::CreateAccessList, ErrorKind::CreateFailed),
        (Operation::PinLatestFormat, ErrorKind::CreateFailed),
        (Operation::CreateSpace, ErrorKind::CreateFailed),
        (Operation::CreateFile, ErrorKind::CreateFailed),
        (Operation::CreateLayoutList, ErrorKind::CreateFailed),
        (Operation::SetChunk, ErrorKind::CreateFailed),
        (Operation::CreateDataset, ErrorKind::CreateFailed),
        (Operation::Extend, ErrorKind::ExtendFailed),
        (Operation::WriteSlot, ErrorKind::WriteFailed),
        (Operation::QueryExtent, ErrorKind::ReadFailed),
        (Operation::ReadAll, ErrorKind::ReadFailed),
        (Operation::ReadWindow, ErrorKind::ReadFailed),
        (Operation::Describe, ErrorKind::ReadFailed),
        (Operation::FlushDataset, ErrorKind::FlushFailed),
        (Operation::FlushFile, ErrorKind::FlushFailed),
        (Operation::Refresh, ErrorKind::RefreshFailed),
        (Operation::Close, ErrorKind::CloseFailed),
    ];
    for (op, kind) in cases {
        assert_eq!(op.error_kind(), kind);
        assert_eq!(check(op, -1), Err(SwmrError { kind, op, status: -1 }));
        assert_eq!(check(op, i64::MIN), Err(SwmrError { kind, op, status: i64::MIN }));
    }
}

#[test]
fn non_negative_status_is_handed_through() {
    assert_eq!(check(Operation::OpenFile, 0), Ok(0));
    assert_eq!(check(Operation::GetSpace, 72057594037927936), Ok(72057594037927936));
    assert_eq!(check(Operation::Close, i64::MAX), Ok(i64::MAX));
}

#[test]
fn use_after_close_carries_the_operation() {
    let e = SwmrError::use_after_close(Operation::ReadAll);
    assert_eq!(e, SwmrError { kind: ErrorKind::UseAfterClose, op: Operation::ReadAll, status: 0 });
    assert_eq!(SwmrError::native(Operation::Refresh, -3).kind, ErrorKind::RefreshFailed);
}

#[test]
fn request_names_its_operation() {
    assert_eq!(Request::Refresh { dataset: 1 }.op(), Operation::Refresh);
    assert_eq!(Request::CreateFile { path: "a".to_string() }.op(), Operation::CreateFile);
    assert_eq!(
        Request::Close { handle: Handle { kind: ResourceKind::File, id: 1 } }.op(),
        Operation::Close
    );
    assert_eq!(Request::Pause { millis: 1 }.op(), Operation::Pause);
}

#[test]
fn reply_gives_its_status_extent_and_records() {
    assert_eq!(Reply::Code(-4).code(), -4);
    assert_eq!(Reply::Extent { status: 2, dims: vec![1] }.code(), 2);
    assert_eq!(Reply::Extent { status: 0, dims: vec![7, 2] }.into_extent(), Ok(vec![7, 2]));
    assert_eq!(
        Reply::Extent { status: -2, dims: vec![7] }.into_extent(),
        Err(SwmrError { kind: ErrorKind::ReadFailed, op: Operation::QueryExtent, status: -2 })
    );
    assert_eq!(
        Reply::Code(5).into_extent(),
        Err(SwmrError { kind: ErrorKind::ReadFailed, op: Operation::QueryExtent, status: 5 })
    );
    assert_eq!(Reply::Records { status: 0, data: vec![1, 2] }.into_records(Operation::ReadAll, 2), Ok(vec![1, 2]));
    assert_eq!(
        Reply::Records { status: 0, data: vec![1, 2] }.into_records(Operation::ReadWindow, 3),
        Err(SwmrError { kind: ErrorKind::ReadFailed, op: Operation::ReadWindow, status: 0 })
    );
    assert_eq!(
        Reply::Records { status: -9, data: vec![1, 2] }.into_records(Operation::ReadAll, 2),
        Err(SwmrError { kind: ErrorKind::ReadFailed, op: Operation::ReadAll, status: -9 })
    );
}

#[test]
fn teardown_of_nothing_is_done_at_once() {
    assert!(matches!(Teardown::begin(None, None, None, None, None), Step::Done(Ok(()))));
    let e = SwmrError::native(Operation::ReadAll, -1);
    assert!(matches!(Teardown::begin(Some(e), None, None, None, None), Step::Done(Err(f)) if f == e));
}

#[test]
fn teardown_skips_absent_handles_and_keeps_order() {
    let a = Handle { kind: ResourceKind::Dataspace, id: 1 };
    let b = Handle { kind: ResourceKind::File, id: 2 };
    let step = Teardown::begin(None, None, Some(a), None, Some(b));
    let next = match step {
        Step::Next(t, Request::Close { handle }) => {
            assert_eq!(handle, a);
            h5swmr::protocol::Machine::advance(t, Reply::Code(-5))
        }
        _ => panic!("first release"),
    };
    let end = match next {
        Step::Next(t, Request::Close { handle }) => {
            assert_eq!(handle, b);
            h5swmr::protocol::Machine::advance(t, Reply::Code(0))
        }
        _ => panic!("second release"),
    };
    assert!(matches!(
        end,
        Step::Done(Err(SwmrError { kind: ErrorKind::CloseFailed, op: Operation::Close, status: -5 }))
    ));
}

fn matches_none() -> TypeMatches {
    TypeMatches {
        is_i32: false,
        is_i64: false,
        is_usize: false,
        is_u32: false,
        is_u64: false,
        is_f32: false,
        is_f64: false,
        pointer_bytes: 8,
    }
}

#[test]
fn element_kind_is_that_of_the_first_match() {
    let none = matches_none();
    assert_eq!(NativePrimitiveType::from_dtype(&none), None);
    assert_eq!(
        NativePrimitiveType::from_dtype(&TypeMatches { is_i32: true, is_f64: true, ..none }),
        Some(NativePrimitiveType::Integer32b)
    );
    assert_eq!(
        NativePrimitiveType::from_dtype(&TypeMatches { is_i64: true, ..none }),
        Some(NativePrimitiveType::Integer64b)
    );
    assert_eq!(
        NativePrimitiveType::from_dtype(&TypeMatches { is_usize: true, is_u64: true, ..none }),
        Some(NativePrimitiveType::Pointer(8))
    );
    assert_eq!(
        NativePrimitiveType::from_dtype(&TypeMatches { is_u32: true, ..none }),
        Some(NativePrimitiveType::UnsignedInteger32b)
    );
    assert_eq!(
        NativePrimitiveType::from_dtype(&TypeMatches { is_u64: true, ..none }),
        Some(NativePrimitiveType::UnsignedInteger64b)
    );
    assert_eq!(
        NativePrimitiveType::from_dtype(&TypeMatches { is_f32: true, ..none }),
        Some(NativePrimitiveType::Float32b)
    );
    assert_eq!(
        NativePrimitiveType::from_dtype(&TypeMatches { is_f64: true, ..none }),
        Some(NativePrimitiveType::Float64b)
    );
}

#[test]
fn element_kind_descriptions() {
    let describe = |t: NativePrimitiveType| format!("{}-bit {}", t.width_bits(), t.family().words());
    assert_eq!(describe(NativePrimitiveType::Pointer(8)), "64-bit pointer");
    assert_eq!(describe(NativePrimitiveType::Pointer(4)), "32-bit pointer");
    assert_eq!(describe(NativePrimitiveType::Integer32b), "32-bit integer");
    assert_eq!(describe(NativePrimitiveType::Integer64b), "64-bit integer");
    assert_eq!(describe(NativePrimitiveType::UnsignedInteger32b), "32-bit unsigned integer");
    assert_eq!(describe(NativePrimitiveType::UnsignedInteger64b), "64-bit unsigned integer");
    assert_eq!(describe(NativePrimitiveType::Float32b), "32-bit float");
    assert_eq!(describe(NativePrimitiveType::Float64b), "64-bit float");
    assert_eq!(NativePrimitiveType::Pointer(usize::MAX).width_bits(), usize::MAX as u128 * 8);
    assert_eq!(NativePrimitiveType::Float64b.family(), Family::Float);
}

#[test]
fn log_level_follows_the_verbosity() {
    assert_eq!(log_level(0), LogLevel::Info);
    assert_eq!(log_level(1), LogLevel::Debug);
    assert_eq!(log_level(2), LogLevel::Trace);
    assert_eq!(log_level(254), LogLevel::Trace);
    assert_eq!(log_level(255), LogLevel::Off);
}

#[test]
fn arguments_are_plain_values() {
    let plot = PlotArgs { src_hdf5: "a.h5".to_string(), dataset_name: "data".to_string(), axis: 0, subsample: 1 };
    assert!(plot.is_plottable());
    assert!(!PlotArgs { subsample: 0, ..plot.clone() }.is_plottable());
    let inspect = InspectArgs { src_hdf5: "a.h5".to_string(), preview_samples: 10 };
    assert!(matches!(Command::Plot(plot), Command::Plot(p) if p.dataset_name == "data"));
    assert!(matches!(Command::Inspect(inspect), Command::Inspect(i) if i.preview_samples == 10));
    assert!(matches!(Command::TestSwMr, Command::TestSwMr));
}

#[test]
fn read_plan_by_rank() {
    assert_eq!(plan_read(1, 5), Ok(ReadPlan::Flat));
    assert_eq!(plan_read(2, 1), Ok(ReadPlan::Folded { axis: 1 }));
    assert_eq!(plan_read(0, 0), Err(UnsupportedRank { ndims: 0 }));
    assert_eq!(plan_read(3, 0), Err(UnsupportedRank { ndims: 3 }));
}

#[test]
fn plot_elements_by_kind() {
    assert_eq!(plot_element(NativePrimitiveType::Integer32b), PlotElement::U32);
    assert_eq!(plot_element(NativePrimitiveType::Integer64b), PlotElement::U64);
    assert_eq!(plot_element(NativePrimitiveType::UnsignedInteger32b), PlotElement::I32);
    assert_eq!(plot_element(NativePrimitiveType::UnsignedInteger64b), PlotElement::I64);
    assert_eq!(plot_element(NativePrimitiveType::Pointer(8)), PlotElement::Usize);
    assert_eq!(plot_element(NativePrimitiveType::Float32b), PlotElement::F32);
    assert_eq!(plot_element(NativePrimitiveType::Float64b), PlotElement::F32);
}

#[test]
fn subsample_takes_every_nth_from_the_first() {
    let data: Vec<i64> = (0..10).collect();
    assert_eq!(subsample(&data, 1), data);
    assert_eq!(subsample(&data, 3), vec![0, 3, 6, 9]);
    assert_eq!(subsample(&data, 5), vec![0, 5]);
    assert_eq!(subsample(&data, 10), vec![0]);
    assert_eq!(subsample(&data, 11), vec![0]);
    assert_eq!(subsample(&data, usize::MAX), vec![0]);
    assert_eq!(subsample(&Vec::<i64>::new(), 2), Vec::<i64>::new());
    let expected: Vec<i64> = data.iter().step_by(4).cloned().collect();
    assert_eq!(subsample(&data, 4), expected);
    assert_eq!(subsample(&vec![1.5f64, 2.5, 3.5], 2), vec![1.5, 3.5]);
}

#[test]
fn preview_indices_vary_in_one_dimension() {
    assert_eq!(preview_len(5, 10), 5);
    assert_eq!(preview_len(50, 10), 10);
    assert_eq!(index_along(3, 1, 7), vec![0, 7, 0]);
    assert_eq!(index_along(2, 5, 7), vec![0, 0]);
    let shape = vec![4usize, 2, 9];
    assert_eq!(preview_indices(&shape, 0, 3), vec![vec![0, 0, 0], vec![1, 0, 0], vec![2, 0, 0]]);
    assert_eq!(preview_indices(&shape, 1, 3), vec![vec![0, 0, 0], vec![0, 1, 0]]);
    assert_eq!(preview_indices(&shape, 2, 0), Vec::<Vec<usize>>::new());
    assert_eq!(preview_indices(&shape, 2, 10).len(), 9);
}
