use git2::Repository;
use port_review::acquire::{plan_acquisition, Acquisition};

#[test]
fn a_skipped_clone_of_a_directory_that_is_no_repository_cannot_be_opened() {
    let plan = plan_acquisition("https://example.org/nobody/no-such-checkout-7f3a9c", true);
    match plan {
        Acquisition::Open { target } => {
            assert_eq!(target.location, "no-such-checkout-7f3a9c");
            assert!(Repository::open(&target.location).is_err());
        }
        other => panic!("expected to open, got {other:?}"),
    }
}
