use po_manager::response::{AppError, AppResponse, AppResponseCode};

#[test]
fn envelopes() {
    let r: AppResponse<u32> = AppResponse::ok(5);
    assert_eq!(r.code, AppResponseCode::Success);
    assert_eq!(r.msg, "");
    assert_eq!(r.data, Some(5));

    let e: AppResponse<u32> = AppResponse::err("boom".to_string());
    assert_eq!(e.code, AppResponseCode::Failure);
    assert_eq!(e.msg, "boom");
    assert_eq!(e.data, None);

    let b: AppResponse<u32> = AppResponse::new()
        .code(AppResponseCode::Unauthorized)
        .msg("no".to_string())
        .data(3);
    assert_eq!(b.code, AppResponseCode::Unauthorized);
    assert_eq!(b.msg, "no");
    assert_eq!(b.data, Some(3));
}

#[test]
fn errors_become_failed_envelopes() {
    let r: AppResponse<u32> = AppResponse::from_result(Err(AppError::NotFound));
    assert_eq!(r.code, AppResponseCode::Failure);
    assert_eq!(r.msg, "记录不存在");
    assert_eq!(r.data, None);
    let r: AppResponse<u32> = AppResponse::from_result(Ok(1));
    assert_eq!(r.code, AppResponseCode::Success);
    assert_eq!(r.data, Some(1));
    assert_eq!(AppError::DuplicateId.message(), "记录id重复");
}
