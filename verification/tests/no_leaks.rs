use std::sync::Arc;
use thin_dst::ThinBox;

#[derive(Debug, Clone)]
struct DontLeakMe(Arc<()>);

#[derive(Debug)]
struct FailsOnCopy;

#[test]
fn test_thinbox() {
    let mut leak_detector = DontLeakMe(Arc::new(()));
    let boxed = ThinBox::new(leak_detector.clone(), vec![FailsOnCopy]).unwrap();
    assert_eq!(Arc::strong_count(&leak_detector.0), 2);

    let copy = boxed.try_clone_with(
        |head: &DontLeakMe| Ok(head.clone()),
        |_item: &FailsOnCopy| Err("FailsOnCopy failing on copy"),
    );
    assert_eq!(copy.err(), Some("FailsOnCopy failing on copy"));

    // The copy of the head that the failed attempt made is gone again.
    assert_eq!(Arc::strong_count(&leak_detector.0), 2);
    assert_eq!(boxed.len(), 1);

    drop(boxed);
    // Now there should only be our copy of leak_detector still around!
    assert!(Arc::get_mut(&mut leak_detector.0).is_some());
}

#[test]
fn failed_head_copy_builds_nothing() {
    let detector = Arc::new(());
    let boxed = ThinBox::new(7u8, vec![DontLeakMe(detector.clone())]).unwrap();
    let copy: Result<ThinBox<u8, DontLeakMe>, i32> =
        boxed.try_clone_with(|_head: &u8| Err(-1), |item: &DontLeakMe| Ok(item.clone()));
    assert_eq!(copy.err(), Some(-1));
    assert_eq!(Arc::strong_count(&detector), 2);
}

#[test]
fn copy_failing_midway_releases_what_was_copied() {
    let detector = Arc::new(());
    let items = vec![
        (0u8, DontLeakMe(detector.clone())),
        (1u8, DontLeakMe(detector.clone())),
        (2u8, DontLeakMe(detector.clone())),
    ];
    let boxed = ThinBox::new((), items).unwrap();
    assert_eq!(Arc::strong_count(&detector), 4);
    let copy = boxed.try_clone_with(
        |_head: &()| Ok(()),
        |item: &(u8, DontLeakMe)| if item.0 < 2 { Ok(item.clone()) } else { Err(item.0) },
    );
    assert_eq!(copy.err(), Some(2));
    assert_eq!(Arc::strong_count(&detector), 4);
    let tags: Vec<u8> = boxed.slice().iter().map(|item| item.0).collect();
    assert_eq!(tags, vec![0, 1, 2]);
}

#[test]
fn successful_copy_is_a_composite_of_its_own() {
    let detector = Arc::new(());
    let boxed = ThinBox::new(DontLeakMe(detector.clone()), vec![1u32, 2, 3]).unwrap();
    let copy: ThinBox<DontLeakMe, u32> = boxed
        .try_clone_with(
            |head: &DontLeakMe| Ok::<DontLeakMe, ()>(head.clone()),
            |item: &u32| Ok(*item + 10),
        )
        .unwrap();
    assert_eq!(Arc::strong_count(&detector), 3);
    assert_eq!(copy.slice(), [11, 12, 13]);
    assert_eq!(boxed.slice(), [1, 2, 3]);
    drop(copy);
    assert_eq!(Arc::strong_count(&detector), 2);
}
