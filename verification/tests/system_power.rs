use arm_scmi::protocol::system_power::{
    RawSystemState, StandardSystemState, SystemState, VendorSpecificSystemState,
};
use arm_scmi::Error;

#[test]
fn system_state() {
    let state = SystemState::Standard(StandardSystemState::SystemSuspend);
    let raw_state = RawSystemState::from(state);
    assert_eq!(raw_state.bits(), 0x4);

    let state = SystemState::VendorSpecific(VendorSpecificSystemState::new(0x8000_abcd));
    let raw_state = RawSystemState::from(state);
    assert_eq!(raw_state.bits(), 0x8000_abcd);
}

#[test]
fn system_state_decode() {
    assert_eq!(
        Ok(SystemState::Standard(StandardSystemState::SystemPowerUp)),
        SystemState::try_from(RawSystemState::from_bits(3))
    );
    assert_eq!(
        Ok(SystemState::VendorSpecific(VendorSpecificSystemState::new(0xffff_ffff))),
        SystemState::try_from(RawSystemState::from_bits(0xffff_ffff))
    );
    assert_eq!(
        Err(Error::InvalidSystemState(5)),
        SystemState::try_from(RawSystemState::from_bits(5))
    );
    assert_eq!(
        Err(Error::InvalidSystemState(0x7fff_ffff)),
        VendorSpecificSystemState::try_from(0x7fff_ffff)
    );
    for v in 0..8u32 {
        if let Ok(s) = SystemState::try_from(RawSystemState::from_bits(v)) {
            assert_eq!(v, RawSystemState::from(s).bits());
        }
    }
}

#[test]
fn system_states_are_valid() {
    let state = VendorSpecificSystemState::new(0x8000_0001);
    state.establish_valid();
    SystemState::VendorSpecific(state).establish_valid();
    SystemState::Standard(StandardSystemState::SystemShutdown).establish_valid();
    assert_eq!(0x8000_0001, u32::from(state));
}
