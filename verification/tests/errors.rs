use meslin::{
    DynRequestError, DynSendError, DynSendNowError, RequestError, SendError, TrySendError,
};

#[test]
fn send_error_gives_back_value() {
    assert_eq!(SendError(5u8).into_inner(), 5);
    assert_eq!(SendError(5u8).map(|x| x as u32 * 2), SendError(10u32));
}

#[test]
fn try_send_error_keeps_kind_under_map() {
    assert_eq!(TrySendError::Closed(3).into_inner(), 3);
    assert_eq!(TrySendError::Full(4).into_inner(), 4);
    assert_eq!(TrySendError::Closed(3).map(|x| x + 1), TrySendError::Closed(4));
    assert_eq!(TrySendError::Full(3).map(|x| x + 1), TrySendError::Full(4));
}

#[test]
fn request_error_from_send_error() {
    let e: RequestError<&str, ()> = RequestError::from(SendError("hello"));
    assert_eq!(e, RequestError::Full("hello"));
}

#[test]
fn dyn_send_error_conversions() {
    assert_eq!(DynSendError::from(SendError(1)), DynSendError::Closed(1));
    assert_eq!(DynSendError::NotAccepted(7).into_inner(), 7);
    assert_eq!(DynSendError::Closed(7).into_inner(), 7);
    assert_eq!(DynSendError::NotAccepted(2).map(|x| x * 3), DynSendError::NotAccepted(6));
    let r: DynRequestError<i32, ()> = DynRequestError::from(DynSendError::NotAccepted(1));
    assert_eq!(r, DynRequestError::NotAccepted(1));
    let r: DynRequestError<i32, ()> = DynRequestError::from(DynSendError::Closed(1));
    assert_eq!(r, DynRequestError::Full(1));
}

#[test]
fn dyn_send_now_error_conversions() {
    assert_eq!(DynSendNowError::from(SendError('a')), DynSendNowError::Closed('a'));
    assert_eq!(DynSendNowError::from(TrySendError::Full('b')), DynSendNowError::Full('b'));
    assert_eq!(DynSendNowError::from(TrySendError::Closed('c')), DynSendNowError::Closed('c'));
    assert_eq!(DynSendNowError::Full(9).into_inner(), 9);
    assert_eq!(DynSendNowError::NotAccepted(9).map(|x| x - 1), DynSendNowError::NotAccepted(8));
}

fn only_small(x: u64) -> Result<u8, u64> {
    if x < 256 {
        Ok(x as u8)
    } else {
        Err(x)
    }
}

#[test]
fn downcast_keeps_kind_either_way() {
    assert_eq!(DynSendError::Closed(7u64).downcast(only_small), Ok(DynSendError::Closed(7u8)));
    assert_eq!(
        DynSendError::NotAccepted(700u64).downcast(only_small),
        Err(DynSendError::NotAccepted(700u64))
    );
    assert_eq!(
        DynSendNowError::Full(1u64).downcast(only_small),
        Ok(DynSendNowError::Full(1u8))
    );
    assert_eq!(
        DynSendNowError::Closed(1000u64).downcast(only_small),
        Err(DynSendNowError::Closed(1000u64))
    );
}
