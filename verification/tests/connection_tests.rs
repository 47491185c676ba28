use quiche4j_jni::config::load_status;
use quiche4j_jni::connection::select_odcid;

#[test]
fn empty_or_missing_odcid_is_dropped() {
    assert_eq!(select_odcid(None), None);
    assert_eq!(select_odcid(Some(vec![])), None);
    assert_eq!(select_odcid(Some(vec![1, 2, 3])), Some(vec![1, 2, 3]));
}

#[test]
fn loading_trusted_certificates_reports_zero_or_minus_one() {
    assert_eq!(load_status(Ok(())), 0);
    assert_eq!(load_status(Err(quiche::Error::TlsFail)), -1);
    assert_eq!(load_status(Err(quiche::Error::Done)), -1);
}
