use smart_clock::inputs::bh1750::{
    OpCode, SensorStage, BH1750, BH1750_ADDR, MEASUREMENT_DELAY_MS,
};
use smart_clock::inputs::bus::{BusReply, Transaction, Transfer};
use smart_clock::inputs::joy_featherwing::ButtonSet;
use smart_clock::inputs::shared::SharedSensorState;
use smart_clock::inputs::InputError;

fn sensor_write(byte: u8) -> Transaction {
    Transaction { address: 0x23, transfer: Transfer::Write(vec![byte]), settle_ms: 150 }
}

#[test]
fn sensor_constants() {
    assert_eq!(BH1750_ADDR, 0x23);
    assert_eq!(MEASUREMENT_DELAY_MS, 150);
    assert_eq!(OpCode::PowerOff.code(), 0x00);
    assert_eq!(OpCode::PowerOn.code(), 0x01);
    assert_eq!(OpCode::ResetMeasurement.code(), 0x07);
    assert_eq!(OpCode::QualityHigh.code(), 0x20);
    assert_eq!(OpCode::QualityHigh2.code(), 0x21);
    assert_eq!(OpCode::QualityLow.code(), 0x23);
}

#[test]
fn sensor_powers_on_first() {
    let mut shared = SharedSensorState::new();
    let mut sensor = BH1750::new();
    assert_eq!(sensor.stage(), SensorStage::Uninitialized);
    assert_eq!(sensor.request(), Some(sensor_write(0x01)));
    assert_eq!(sensor.measure_brightness(&BusReply::Written, &mut shared), Ok(()));
    assert_eq!(sensor.stage(), SensorStage::Ready);
    assert_eq!(shared, SharedSensorState::new());
}

#[test]
fn sensor_that_does_not_answer_is_not_found() {
    let mut shared = SharedSensorState::new();
    let mut sensor = BH1750::new();
    assert_eq!(
        sensor.measure_brightness(&BusReply::Fault, &mut shared),
        Err(InputError::HwNotFound)
    );
    assert_eq!(sensor.stage(), SensorStage::Halted);
    assert_eq!(sensor.request(), None);
    assert_eq!(
        sensor.measure_brightness(&BusReply::Written, &mut shared),
        Err(InputError::HwNotFound)
    );
    assert_eq!(sensor.stage(), SensorStage::Halted);
    sensor.init();
    assert_eq!(sensor.stage(), SensorStage::Uninitialized);
    assert_eq!(sensor.request(), Some(sensor_write(0x01)));
}

#[test]
fn measurement_publishes_the_second_byte() {
    let mut shared = SharedSensorState::new();
    let buttons = ButtonSet { up: true, down: false, left: false, right: false, select: true };
    shared.publish_buttons(buttons);
    let mut sensor = BH1750::new();
    sensor.measure_brightness(&BusReply::Written, &mut shared).unwrap();
    assert_eq!(sensor.request(), Some(sensor_write(0x21)));
    assert_eq!(sensor.measure_brightness(&BusReply::Written, &mut shared), Ok(()));
    assert_eq!(sensor.stage(), SensorStage::Measuring);
    assert_eq!(
        sensor.request(),
        Some(Transaction { address: 0x23, transfer: Transfer::Read(2), settle_ms: 150 })
    );
    assert_eq!(sensor.measure_brightness(&BusReply::Data(vec![0x12, 0xab]), &mut shared), Ok(()));
    assert_eq!(shared.get_brightness(), 0xab);
    assert_eq!(BH1750::get_brightness(&shared), 0xab);
    assert_eq!(shared.get_buttons(), buttons);
    assert_eq!(sensor.stage(), SensorStage::Ready);
}

#[test]
fn short_measurement_is_skipped() {
    for reply in [
        BusReply::Data(vec![0x12]),
        BusReply::Data(vec![]),
        BusReply::Data(vec![1, 2, 3]),
        BusReply::Fault,
        BusReply::Written,
    ] {
        let mut shared = SharedSensorState::new();
        shared.publish_brightness(200);
        let mut sensor = BH1750::new();
        sensor.measure_brightness(&BusReply::Written, &mut shared).unwrap();
        sensor.measure_brightness(&BusReply::Written, &mut shared).unwrap();
        assert_eq!(sensor.measure_brightness(&reply, &mut shared), Err(InputError::ReadErr));
        assert_eq!(shared.get_brightness(), 200);
        assert_eq!(sensor.stage(), SensorStage::Ready);
        assert_eq!(sensor.request(), Some(sensor_write(0x21)));
    }
}

#[test]
fn failed_measurement_request_is_a_write_error() {
    let mut shared = SharedSensorState::new();
    shared.publish_brightness(9);
    let mut sensor = BH1750::new();
    sensor.measure_brightness(&BusReply::Written, &mut shared).unwrap();
    assert_eq!(sensor.measure_brightness(&BusReply::Fault, &mut shared), Err(InputError::WriteErr));
    assert_eq!(sensor.stage(), SensorStage::Ready);
    assert_eq!(shared.get_brightness(), 9);
}

#[test]
fn shared_state_keeps_the_last_value_of_each_field() {
    let mut shared = SharedSensorState::new();
    assert_eq!(shared.get_brightness(), 0);
    assert_eq!(shared.get_buttons(), ButtonSet::empty());
    shared.publish_brightness(10);
    shared.publish_brightness(20);
    assert_eq!(shared.get_brightness(), 20);
    assert_eq!(shared.get_buttons(), ButtonSet::empty());
    let first = ButtonSet { up: true, down: true, left: false, right: false, select: false };
    let second = ButtonSet { up: false, down: false, left: true, right: false, select: false };
    shared.publish_buttons(first);
    shared.publish_buttons(second);
    assert_eq!(shared.get_buttons(), second);
    assert_eq!(shared.get_brightness(), 20);
}
