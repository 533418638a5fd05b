use detect_drop::DetectDrop;

#[test]
fn it_works() {
    let a = 10;
    let _ = DetectDrop::new(a + 3);
}

#[test]
fn drop_vec() {
    let v = vec![
        DetectDrop::new("abc".to_owned()),
        DetectDrop::new("defg".to_owned()),
        DetectDrop::new("hijkl".to_owned()),
    ];
    drop(v);
}

#[test]
fn read_through_wrapper() {
    let w = DetectDrop::new(41);
    assert_eq!(*w.get(), 41);
}

#[test]
fn mutate_through_wrapper() {
    let mut w = DetectDrop::new(String::from("ab"));
    w.get_mut().push('c');
    assert_eq!(w.get().as_str(), "abc");
}

#[test]
fn extraction_returns_value() {
    let w = DetectDrop::new(String::from("payload"));
    let inner = w.into_inner();
    assert_eq!(inner, "payload");
}

#[test]
fn extraction_after_mutation() {
    let mut w = DetectDrop::new(13);
    *w.get_mut() += 1;
    assert_eq!(w.into_inner(), 14);
}

#[test]
fn equality_delegates() {
    assert_eq!(DetectDrop::new(1), DetectDrop::new(1));
    assert_ne!(DetectDrop::new(1), DetectDrop::new(2));
}

#[test]
fn ordering_delegates() {
    assert!(DetectDrop::new(1) < DetectDrop::new(2));
    assert!(DetectDrop::new("b") > DetectDrop::new("a"));
}

#[test]
fn hashing_delegates() {
    let mut seen = std::collections::HashSet::new();
    seen.insert(DetectDrop::new(7));
    seen.insert(DetectDrop::new(7));
    seen.insert(DetectDrop::new(8));
    assert_eq!(seen.len(), 2);
}

#[test]
fn clone_duplicates_value() {
    let w = DetectDrop::new(vec![1, 2, 3]);
    let c = w.clone();
    assert_eq!(c, w);
    assert_eq!(*c.get(), vec![1, 2, 3]);
}

#[test]
fn from_wraps_like_new() {
    let w: DetectDrop<u32> = DetectDrop::from(13);
    assert_eq!(*w.get(), 13);
}
