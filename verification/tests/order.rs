use ecology::Foo;
use ecology::ORDER_ID_HI;
use ecology::ORDER_ID_LO;

#[test]
fn built_record_keeps_its_fields() {
    let f = Foo::new(1000, String::from("alice"), true);
    assert_eq!(f.order_id(), 1000);
    assert_eq!(f.customer().as_str(), "alice");
    assert!(f.paid());
}

#[test]
fn built_record_keeps_an_unpaid_flag() {
    let f = Foo::new(1999, String::new(), false);
    assert_eq!(f.order_id(), 1999);
    assert_eq!(f.customer().as_str(), "");
    assert!(!f.paid());
}

#[test]
fn sampled_record_lies_in_the_identifier_range() {
    let f = Foo::sample();
    assert!(ORDER_ID_LO <= f.order_id());
    assert!(f.order_id() < ORDER_ID_HI);
}

#[test]
fn samples_are_drawn_anew_each_time() {
    // With a thousand possible identifiers, forty draws landing on one
    // single value would mean the sampler is not drawing at all.
    let first: usize = Foo::sample().order_id();
    let mut all_equal = true;
    let mut i: usize = 0;
    while i < 40 {
        if Foo::sample().order_id() != first {
            all_equal = false;
        }
        i += 1;
    }
    assert!(!all_equal);
}
