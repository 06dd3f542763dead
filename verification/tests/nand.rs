use cts2_obc::nand::{
    decode_id, page_address_fits, BusAction, BusEvent, Nand, NandError, NandId, PageGeometry,
    Reply, Step, Transaction, CMD_READ_ID, CMD_READ_PAGE, CMD_RESET, READ_ID_LEN,
    RESET_SETTLE_CYCLES,
};

/// Runs a transaction to its end. `exchange` says how the exchange goes; the
/// other actions are carried out without a report.
fn run(
    mut transaction: Transaction,
    exchange: BusEvent,
) -> (Vec<BusAction>, Vec<u8>, Result<Reply, NandError>) {
    let mut exchange = Some(exchange);
    let mut actions = Vec::new();
    let mut clocked_out = Vec::new();
    loop {
        let action = transaction.action();
        actions.push(action);
        let event = match action {
            BusAction::Write | BusAction::Transfer => {
                clocked_out = transaction.frame().clone();
                exchange.take().expect("one exchange in a transaction")
            }
            _ => BusEvent::Done,
        };
        match transaction.advance(event) {
            Step::Continue(next) => transaction = next,
            Step::Finished(result) => return (actions, clocked_out, result),
        }
    }
}

fn driver() -> Nand<&'static str, u8> {
    let (nand, first) = Nand::new("bus", 14u8);
    assert_eq!(first, BusAction::ReleaseChipSelect);
    nand
}

#[test]
fn the_protocol_constants_are_those_of_the_device() {
    assert_eq!(CMD_RESET, 0xFF);
    assert_eq!(CMD_READ_ID, 0x9F);
    assert_eq!(CMD_READ_PAGE, 0x13);
    assert_eq!(READ_ID_LEN, 6);
    assert_eq!(RESET_SETTLE_CYCLES, 640_000);
}

#[test]
fn the_identification_is_read_from_the_third_and_fourth_byte() {
    assert_eq!(
        decode_id(&[0x9F, 0x00, 0xAB, 0xCD, 0x00, 0x00]),
        Some(NandId { manufacturer: 0xAB, device: 0xCD })
    );
    assert_eq!(decode_id(&[0x9F, 0x00, 0xAB, 0xCD, 0x00]), None);
    assert_eq!(decode_id(&[0x9F, 0x00, 0xAB, 0xCD, 0x00, 0x00, 0x00]), None);
    assert_eq!(decode_id(&[]), None);
}

#[test]
fn reading_the_identification_is_one_framed_exchange() {
    let mut nand = driver();
    let (actions, clocked_out, result) =
        run(nand.read_id(), BusEvent::Received(vec![0x9F, 0x00, 0xAB, 0xCD, 0x00, 0x00]));
    assert_eq!(
        actions,
        vec![BusAction::AssertChipSelect, BusAction::Transfer, BusAction::ReleaseChipSelect]
    );
    assert_eq!(clocked_out, vec![0x9F, 0, 0, 0, 0, 0]);
    assert_eq!(result, Ok(Reply::Id(NandId { manufacturer: 0xAB, device: 0xCD })));
}

#[test]
fn a_reset_writes_one_byte_and_waits() {
    let mut nand = driver();
    let (actions, clocked_out, result) = run(nand.reset(), BusEvent::Done);
    assert_eq!(
        actions,
        vec![
            BusAction::AssertChipSelect,
            BusAction::Write,
            BusAction::ReleaseChipSelect,
            BusAction::Settle(640_000),
        ]
    );
    assert_eq!(clocked_out, vec![0xFF]);
    assert_eq!(result, Ok(Reply::Reset));
}

#[test]
fn a_bus_error_is_reported_after_the_chip_is_released() {
    let mut nand = driver();
    let (actions, _, result) = run(nand.read_id(), BusEvent::Failed);
    assert_eq!(
        actions,
        vec![BusAction::AssertChipSelect, BusAction::Transfer, BusAction::ReleaseChipSelect]
    );
    assert_eq!(result, Err(NandError::Bus));

    let (actions, _, result) = run(nand.reset(), BusEvent::Failed);
    assert_eq!(
        actions,
        vec![
            BusAction::AssertChipSelect,
            BusAction::Write,
            BusAction::ReleaseChipSelect,
            BusAction::Settle(RESET_SETTLE_CYCLES),
        ]
    );
    assert_eq!(result, Err(NandError::Bus));
}

#[test]
fn a_response_of_the_wrong_length_is_a_framing_error() {
    let mut nand = driver();
    let (_, _, result) = run(nand.read_id(), BusEvent::Received(vec![0x9F, 0x00]));
    assert_eq!(result, Err(NandError::Framing));
    let (_, _, result) = run(nand.read_id(), BusEvent::Done);
    assert_eq!(result, Err(NandError::Framing));
    let (_, _, result) = run(nand.reset(), BusEvent::Received(vec![0x00]));
    assert_eq!(result, Ok(Reply::Reset));
}

#[test]
fn what_the_other_actions_report_is_not_looked_at() {
    let mut nand = driver();
    let transaction = nand.read_id();
    let transaction = match transaction.advance(BusEvent::Failed) {
        Step::Continue(next) => next,
        Step::Finished(_) => panic!("over before the exchange"),
    };
    assert_eq!(transaction.action(), BusAction::Transfer);
    let transaction = match transaction
        .advance(BusEvent::Received(vec![0x9F, 0x00, 0x01, 0x02, 0x00, 0x00]))
    {
        Step::Continue(next) => next,
        Step::Finished(_) => panic!("over before the release"),
    };
    assert_eq!(transaction.action(), BusAction::ReleaseChipSelect);
    match transaction.advance(BusEvent::Failed) {
        Step::Continue(_) => panic!("an identification read has nothing to wait for"),
        Step::Finished(result) => {
            assert_eq!(result, Ok(Reply::Id(NandId { manufacturer: 1, device: 2 })))
        }
    }
}

#[test]
fn a_page_read_clocks_out_command_address_and_padding() {
    let mut nand = driver();
    let geometry = PageGeometry { address_bytes: 3, dummy_bytes: 1, data_bytes: 4 };
    let transaction = nand.read_page(0x0102_03, geometry).unwrap();
    let response = vec![0xAA, 0xBB, 0xCC, 0xDD, 0xEE, 1, 2, 3, 4];
    let (actions, clocked_out, result) = run(transaction, BusEvent::Received(response));
    assert_eq!(
        actions,
        vec![BusAction::AssertChipSelect, BusAction::Transfer, BusAction::ReleaseChipSelect]
    );
    assert_eq!(clocked_out, vec![0x13, 0x01, 0x02, 0x03, 0, 0, 0, 0, 0]);
    assert_eq!(result, Ok(Reply::Page(vec![1, 2, 3, 4])));
}

#[test]
fn a_page_read_with_a_wide_address_field_pads_the_address() {
    let mut nand = driver();
    let geometry = PageGeometry { address_bytes: 6, dummy_bytes: 0, data_bytes: 2 };
    let transaction = nand.read_page(0xDEAD_BEEF, geometry).unwrap();
    assert_eq!(transaction.frame(), &vec![0x13, 0, 0, 0xDE, 0xAD, 0xBE, 0xEF, 0, 0]);
    let (_, _, result) = run(transaction, BusEvent::Received(vec![9, 9, 9, 9, 9, 9, 9, 5, 6]));
    assert_eq!(result, Ok(Reply::Page(vec![5, 6])));

    let bare = PageGeometry { address_bytes: 0, dummy_bytes: 0, data_bytes: 0 };
    let transaction = nand.read_page(0, bare).unwrap();
    assert_eq!(transaction.frame(), &vec![0x13]);
    let (_, _, result) = run(transaction, BusEvent::Received(vec![0]));
    assert_eq!(result, Ok(Reply::Page(vec![])));
}

#[test]
fn a_page_read_is_refused_where_the_address_does_not_fit() {
    let mut nand = driver();
    let narrow = PageGeometry { address_bytes: 2, dummy_bytes: 0, data_bytes: 1 };
    assert!(nand.read_page(0x1_0000, narrow).is_none());
    assert!(nand.read_page(0xFFFF, narrow).is_some());
    assert!(page_address_fits(0xFFFF, 2));
    assert!(!page_address_fits(0x1_0000, 2));
    assert!(page_address_fits(u32::MAX, 4));
    assert!(page_address_fits(u32::MAX, 200));
    assert!(page_address_fits(0, 0));
    assert!(!page_address_fits(1, 0));
    assert!(page_address_fits(0xFF_FFFF, 3));
    assert!(!page_address_fits(0x100_0000, 3));
}

#[test]
fn a_page_read_with_a_short_response_is_a_framing_error() {
    let mut nand = driver();
    let geometry = PageGeometry { address_bytes: 3, dummy_bytes: 1, data_bytes: 4 };
    let transaction = nand.read_page(7, geometry).unwrap();
    let (_, _, result) = run(transaction, BusEvent::Received(vec![0; 8]));
    assert_eq!(result, Err(NandError::Framing));
}

#[test]
fn the_driver_keeps_and_returns_its_handles() {
    let mut nand = driver();
    {
        let (spi, cs) = nand.bus();
        assert_eq!(*spi, "bus");
        *cs = 15;
    }
    let (_, _, result) = run(nand.reset(), BusEvent::Done);
    assert_eq!(result, Ok(Reply::Reset));
    assert_eq!(nand.free(), ("bus", 15));
}
