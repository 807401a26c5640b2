use std::rc::Rc;
use std::sync::Arc;
use thin_dst::arc::ThinArc;
use thin_dst::borrow::{ThinRef, ThinRefMut};
use thin_dst::boxed::{BuildError, ThinBox};
use thin_dst::data::{InProgress, ThinData};
use thin_dst::layout::LayoutErr;
use thin_dst::rc::ThinRc;
use thin_dst::slice::ThinSlice;

#[test]
fn new_keeps_head_and_items_in_order() {
    let thin = ThinBox::new("head", vec![0u32, 1, 2, 3, 4, 5]).unwrap();
    assert_eq!(*thin.head(), "head");
    assert_eq!(thin.slice(), [0, 1, 2, 3, 4, 5]);
    assert_eq!(thin.len(), 6);
}

#[test]
fn empty_tail() {
    let thin: ThinBox<(), u32> = ThinBox::new((), vec![]).unwrap();
    assert_eq!(thin.len(), 0);
    assert!(thin.slice().is_empty());
    let thin: ThinBox<(), ()> = ThinBox::new((), vec![]).unwrap();
    assert_eq!(thin.len(), 0);
    assert!(thin.slice().is_empty());
    let thin: ThinRc<u8, ()> = ThinRc::new(3, vec![]).unwrap();
    assert_eq!(thin.len(), 0);
    let thin: ThinArc<u8, String> = ThinArc::new(3, vec![]).unwrap();
    assert_eq!(thin.len(), 0);
    assert_eq!(*thin.head(), 3);
}

#[test]
fn stored_length_is_the_number_of_items() {
    for n in [0usize, 1, 2, 7, 100] {
        let items: Vec<usize> = (0..n).collect();
        let boxed = ThinBox::new((), items.clone()).unwrap();
        assert_eq!(boxed.len(), n);
        assert_eq!(boxed.slice().len(), n);
        let fat: Box<ThinData<(), usize>> = boxed.into();
        assert_eq!(fat.len(), n);
        assert_eq!(fat.slice().len(), n);
        let shared = ThinRc::new((), items.clone()).unwrap();
        assert_eq!(shared.len(), shared.slice().len());
        let shared = ThinArc::new((), items).unwrap();
        assert_eq!(shared.len(), shared.slice().len());
    }
}

#[test]
fn head_factory_sees_the_items() {
    let a = ThinArc::new(1usize, Vec::<u8>::new()).unwrap();
    let b = ThinArc::new(2usize, Vec::<u8>::new()).unwrap();
    let c = ThinArc::new(3usize, Vec::<u8>::new()).unwrap();
    let children = vec![a.clone(), b.clone(), c.clone()];
    let parent = ThinArc::new_with(children, |items: &[ThinArc<usize, u8>]| items.len()).unwrap();
    assert_eq!(*parent.head(), 3);
    assert_eq!(parent.len(), 3);
    let heads: Vec<usize> = parent.slice().iter().map(|child| *child.head()).collect();
    assert_eq!(heads, vec![1, 2, 3]);
    let first: Arc<ThinData<usize, u8>> = parent.slice()[0].clone().into();
    let given: Arc<ThinData<usize, u8>> = a.into();
    assert!(Arc::ptr_eq(&first, &given));
}

#[test]
fn head_factory_for_every_mode() {
    let sum = |items: &[u32]| items.iter().sum::<u32>();
    let boxed = ThinBox::new_with(vec![1u32, 2, 3], sum).unwrap();
    assert_eq!(*boxed.head(), 6);
    assert_eq!(boxed.slice(), [1, 2, 3]);
    let shared = ThinRc::new_with(vec![4u32, 5], sum).unwrap();
    assert_eq!(*shared.head(), 9);
    assert_eq!(shared.slice(), [4, 5]);
    let shared = ThinArc::new_with(Vec::<u32>::new(), sum).unwrap();
    assert_eq!(*shared.head(), 0);
    assert_eq!(shared.len(), 0);
}

#[test]
fn from_iter_takes_the_declared_number() {
    let thin = ThinBox::from_iter('h', 3, vec![10u8, 20, 30].into_iter()).unwrap();
    assert_eq!(*thin.head(), 'h');
    assert_eq!(thin.slice(), [10, 20, 30]);
    let thin = ThinBox::from_iter((), 0, std::iter::empty::<u64>()).unwrap();
    assert_eq!(thin.len(), 0);
    let thin = ThinBox::from_iter((), 4, (1u32..5).map(|n| n * n)).unwrap();
    assert_eq!(thin.slice(), [1, 4, 9, 16]);
}

#[test]
fn from_iter_reports_a_short_source() {
    let r = ThinBox::from_iter((), 3, vec![1u8, 2].into_iter());
    assert_eq!(r.err(), Some(BuildError::OverReported));
    let r = ThinBox::from_iter((), 1, std::iter::empty::<u8>());
    assert_eq!(r.err(), Some(BuildError::OverReported));
}

#[test]
fn from_iter_reports_a_long_source() {
    let r = ThinBox::from_iter((), 1, vec![1u8, 2].into_iter());
    assert_eq!(r.err(), Some(BuildError::UnderReported));
    let r = ThinBox::from_iter((), 0, std::iter::once(1u8));
    assert_eq!(r.err(), Some(BuildError::UnderReported));
}

#[test]
fn from_iter_reports_oversize_before_it_takes_items() {
    let mut asked = 0;
    let source = std::iter::from_fn(|| {
        asked += 1;
        Some(0u64)
    });
    let r = ThinBox::from_iter((), usize::MAX, source);
    assert_eq!(r.err(), Some(BuildError::Oversize));
    assert_eq!(asked, 0);
}

#[test]
fn from_iter_releases_what_was_written() {
    let detector = Rc::new(());
    let items = vec![detector.clone(), detector.clone()];
    assert_eq!(Rc::strong_count(&detector), 3);
    let r = ThinBox::from_iter((), 5, items.into_iter());
    assert_eq!(r.err(), Some(BuildError::OverReported));
    assert_eq!(Rc::strong_count(&detector), 1);
}

#[test]
fn in_progress_counts_what_is_written() {
    let mut building = InProgress::<u16, u32>::new(3).unwrap();
    assert_eq!(building.len(), 3);
    assert_eq!(building.written_len(), 0);
    building.push(7);
    assert_eq!(building.written_len(), 1);
    building.push(8);
    building.push(9);
    assert_eq!(building.written_len(), 3);
    assert_eq!(building.layout(), thin_dst::data::thin_layout::<u16, u32>(3).unwrap());
    let data = building.finish(5);
    assert_eq!(*data.head(), 5);
    assert_eq!(data.slice(), [7, 8, 9]);
    assert_eq!(data.len(), 3);
    assert_eq!(data.layout(), thin_dst::data::thin_layout::<u16, u32>(3).unwrap());
    assert_eq!(InProgress::<u16, u32>::new(usize::MAX).err(), Some(LayoutErr));
}

#[test]
fn replace_head_and_items() {
    let mut thin = ThinBox::new(String::from("old"), vec![1u8, 2, 3]).unwrap();
    let previous = thin.replace_head(String::from("new"));
    assert_eq!(previous, "old");
    assert_eq!(thin.head(), "new");
    assert_eq!(thin.slice(), [1, 2, 3]);
    let previous = thin.replace_item(1, 20);
    assert_eq!(previous, 2);
    assert_eq!(thin.slice(), [1, 20, 3]);
    assert_eq!(thin.len(), 3);
    assert_eq!(thin.head(), "new");
    let mut fat: Box<ThinData<String, u8>> = thin.into();
    assert_eq!(fat.replace_item(2, 30), 3);
    assert_eq!(fat.replace_head(String::from("newer")), "new");
    assert_eq!(fat.slice(), [1, 20, 30]);
    assert_eq!(fat.len(), 3);
}

#[test]
fn clone_of_a_box_is_deep() {
    let thin = ThinBox::new(vec![1u8], vec![String::from("a"), String::from("b")]).unwrap();
    let mut copy = thin.clone();
    assert_eq!(copy, thin);
    copy.replace_item(0, String::from("z"));
    copy.replace_head(vec![]);
    assert_eq!(thin.slice(), ["a", "b"]);
    assert_eq!(*thin.head(), vec![1u8]);
    assert_eq!(copy.slice(), ["z", "b"]);
    assert_ne!(copy, thin);
}

#[test]
fn box_round_trip_keeps_the_block() {
    let thin = ThinBox::new(9u64, vec![1u16, 2, 3]).unwrap();
    let place = format!("{:p}", thin.head());
    let fat: Box<ThinData<u64, u16>> = thin.into();
    assert_eq!(format!("{:p}", fat.head()), place);
    assert_eq!(*fat.head(), 9);
    assert_eq!(fat.slice(), [1, 2, 3]);
    let thin: ThinBox<u64, u16> = fat.into();
    assert_eq!(format!("{:p}", thin.head()), place);
    assert_eq!(*thin.head(), 9);
    assert_eq!(thin.slice(), [1, 2, 3]);
    assert_eq!(thin.len(), 3);
}

#[test]
fn rc_round_trip_keeps_the_block() {
    let thin = ThinRc::new('x', vec![1u8, 2]).unwrap();
    let witness: Rc<ThinData<char, u8>> = thin.clone().into();
    let fat: Rc<ThinData<char, u8>> = thin.into();
    assert!(Rc::ptr_eq(&fat, &witness));
    let thin: ThinRc<char, u8> = fat.into();
    assert_eq!(*thin.head(), 'x');
    assert_eq!(thin.slice(), [1, 2]);
    let fat: Rc<ThinData<char, u8>> = thin.into();
    assert!(Rc::ptr_eq(&fat, &witness));
    assert_eq!(Rc::strong_count(&witness), 2);
}

#[test]
fn arc_round_trip_keeps_the_block() {
    let thin = ThinArc::new('x', vec![1u8, 2]).unwrap();
    let witness: Arc<ThinData<char, u8>> = thin.clone().into();
    let fat: Arc<ThinData<char, u8>> = thin.into();
    assert!(Arc::ptr_eq(&fat, &witness));
    let thin: ThinArc<char, u8> = fat.into();
    assert_eq!(*thin.head(), 'x');
    assert_eq!(thin.slice(), [1, 2]);
    let fat: Arc<ThinData<char, u8>> = thin.into();
    assert!(Arc::ptr_eq(&fat, &witness));
    assert_eq!(Arc::strong_count(&witness), 2);
}

#[test]
fn rc_clone_counts_one_more() {
    let thin = ThinRc::new(0u8, vec![String::from("a")]).unwrap();
    let fat: Rc<ThinData<u8, String>> = thin.into();
    assert_eq!(Rc::strong_count(&fat), 1);
    let thin: ThinRc<u8, String> = fat.clone().into();
    assert_eq!(Rc::strong_count(&fat), 2);
    let second = thin.clone();
    assert_eq!(Rc::strong_count(&fat), 3);
    let third = second.clone();
    assert_eq!(Rc::strong_count(&fat), 4);
    assert_eq!(format!("{:p}", third.head()), format!("{:p}", fat.head()));
    drop(thin);
    drop(second);
    assert_eq!(Rc::strong_count(&fat), 2);
    assert_eq!(third.slice(), ["a"]);
    assert_eq!(*third.head(), 0);
    drop(fat);
    assert_eq!(third.slice(), ["a"]);
    let last: Rc<ThinData<u8, String>> = third.into();
    assert_eq!(Rc::strong_count(&last), 1);
}

#[test]
fn arc_clone_counts_one_more() {
    let thin = ThinArc::new(0u8, vec![String::from("a")]).unwrap();
    let fat: Arc<ThinData<u8, String>> = thin.into();
    assert_eq!(Arc::strong_count(&fat), 1);
    let thin: ThinArc<u8, String> = fat.clone().into();
    assert_eq!(Arc::strong_count(&fat), 2);
    let second = thin.clone();
    assert_eq!(Arc::strong_count(&fat), 3);
    assert_eq!(format!("{:p}", second.head()), format!("{:p}", fat.head()));
    drop(thin);
    assert_eq!(Arc::strong_count(&fat), 2);
    drop(fat);
    assert_eq!(second.slice(), ["a"]);
    assert_eq!(*second.head(), 0);
    let last: Arc<ThinData<u8, String>> = second.into();
    assert_eq!(Arc::strong_count(&last), 1);
}

#[test]
fn shared_items_are_released_with_the_last_handle() {
    let detector = Rc::new(());
    let thin = ThinRc::new(detector.clone(), vec![detector.clone(), detector.clone()]).unwrap();
    assert_eq!(Rc::strong_count(&detector), 4);
    let other = thin.clone();
    assert_eq!(Rc::strong_count(&detector), 4);
    drop(thin);
    assert_eq!(Rc::strong_count(&detector), 4);
    drop(other);
    assert_eq!(Rc::strong_count(&detector), 1);
}

#[test]
fn borrowed_views() {
    let mut fat: Box<ThinData<u8, u32>> = ThinBox::new(1u8, vec![5u32, 6]).unwrap().into();
    {
        let view: ThinRef<u8, u32> = ThinRef::from(&*fat);
        let copy = view;
        assert_eq!(*view.head(), 1);
        assert_eq!(copy.slice(), [5, 6]);
        assert_eq!(copy.len(), 2);
        let back: &ThinData<u8, u32> = view.into();
        assert_eq!(format!("{:p}", back), format!("{:p}", &*fat));
    }
    {
        let mut view: ThinRefMut<u8, u32> = ThinRefMut::from(&mut *fat);
        assert_eq!(view.replace_head(2), 1);
        assert_eq!(view.replace_item(0, 50), 5);
        assert_eq!(view.slice(), [50, 6]);
        assert_eq!(view.len(), 2);
        let back: &mut ThinData<u8, u32> = view.into();
        assert_eq!(back.replace_item(1, 60), 6);
    }
    assert_eq!(*fat.head(), 2);
    assert_eq!(fat.slice(), [50, 60]);
}

#[test]
fn thin_slice_head_is_its_length() {
    let thin = ThinSlice::new(vec!['a', 'b', 'c']).unwrap();
    assert_eq!(thin.len(), 3);
    assert_eq!(thin.as_slice(), ['a', 'b', 'c']);
    assert_eq!(ThinSlice::<char>::get_length(&3), 3);
    let empty = ThinSlice::<u64>::new(vec![]).unwrap();
    assert_eq!(empty.len(), 0);
    assert!(empty.as_slice().is_empty());
}

struct Noisy<'a>(&'a std::cell::RefCell<Vec<u8>>, u8);

impl Drop for Noisy<'_> {
    fn drop(&mut self) {
        self.0.borrow_mut().push(self.1);
    }
}

#[test]
fn items_are_released_in_order_and_the_head_last() {
    let log = std::cell::RefCell::new(Vec::new());
    let thin = ThinBox::new(Noisy(&log, 0), vec![Noisy(&log, 1), Noisy(&log, 2), Noisy(&log, 3)])
        .unwrap();
    assert!(log.borrow().is_empty());
    drop(thin);
    assert_eq!(*log.borrow(), vec![1, 2, 3, 0]);
    log.borrow_mut().clear();
    let shared = ThinRc::new(Noisy(&log, 0), vec![Noisy(&log, 1), Noisy(&log, 2)]).unwrap();
    let other = shared.clone();
    drop(shared);
    assert!(log.borrow().is_empty());
    drop(other);
    assert_eq!(*log.borrow(), vec![1, 2, 0]);
}

#[test]
fn into_parts_gives_head_and_items() {
    let thin = ThinBox::new(String::from("h"), vec![1u8, 2, 3]).unwrap();
    let (head, items) = thin.into_parts();
    assert_eq!(head, "h");
    assert_eq!(items, vec![1, 2, 3]);
    let fat: Box<ThinData<u8, char>> = ThinBox::new(4u8, vec!['x']).unwrap().into();
    assert_eq!((*fat).into_parts(), (4, vec!['x']));
}

#[test]
fn equality_goes_by_head_and_items() {
    let a = ThinBox::new(1u8, vec![1u32, 2, 3]).unwrap();
    let b = ThinBox::new(1u8, vec![1u32, 2, 3]).unwrap();
    let other_head = ThinBox::new(2u8, vec![1u32, 2, 3]).unwrap();
    let other_item = ThinBox::new(1u8, vec![1u32, 2, 4]).unwrap();
    let shorter = ThinBox::new(1u8, vec![1u32, 2]).unwrap();
    assert!(a == b);
    assert!(a != other_head);
    assert!(a != other_item);
    assert!(a != shorter);
    let fat_a: Box<ThinData<u8, u32>> = a.into();
    let fat_b: Box<ThinData<u8, u32>> = b.into();
    assert!(fat_a == fat_b);
    assert!(ThinRef::from(&*fat_a) == ThinRef::from(&*fat_b));
    let fat_c: Box<ThinData<u8, u32>> = other_item.into();
    assert!(fat_a != fat_c);
    assert!(ThinRef::from(&*fat_a) != ThinRef::from(&*fat_c));
    let shared = ThinRc::new(1u8, vec![1u32, 2, 3]).unwrap();
    assert!(shared == shared.clone());
    assert!(shared != ThinRc::new(1u8, vec![]).unwrap());
    let shared = ThinArc::new(1u8, vec![1u32, 2, 3]).unwrap();
    assert!(shared == ThinArc::new(1u8, vec![1u32, 2, 3]).unwrap());
    assert!(shared != ThinArc::new(0u8, vec![1u32, 2, 3]).unwrap());
}
