use lps22::{I2cAddress, Lps22ReadRegister, Lps22ReadWriteRegister, ReadRegister, WriteRegister};

const READ_WRITE: [(Lps22ReadWriteRegister, u8); 11] = [
    (Lps22ReadWriteRegister::INTERRUPT_CFG, 0x0B),
    (Lps22ReadWriteRegister::THS_P_L, 0x0C),
    (Lps22ReadWriteRegister::THS_P_H, 0x0D),
    (Lps22ReadWriteRegister::IF_CTRL, 0x0E),
    (Lps22ReadWriteRegister::CTRL_REG1, 0x10),
    (Lps22ReadWriteRegister::CTRL_REG2, 0x11),
    (Lps22ReadWriteRegister::CTRL_REG3, 0x12),
    (Lps22ReadWriteRegister::FIFO_CTRL, 0x13),
    (Lps22ReadWriteRegister::FIFO_WTM, 0x14),
    (Lps22ReadWriteRegister::RPDS_L, 0x18),
    (Lps22ReadWriteRegister::RPDS_H, 0x19),
];

const READ_ONLY: [(Lps22ReadRegister, u8); 17] = [
    (Lps22ReadRegister::WHO_AM_I, 0x0F),
    (Lps22ReadRegister::REF_P_L, 0x15),
    (Lps22ReadRegister::REF_P_H, 0x16),
    (Lps22ReadRegister::INT_SOURCE, 0x24),
    (Lps22ReadRegister::FIFO_STATUS1, 0x25),
    (Lps22ReadRegister::FIFO_STATUS2, 0x26),
    (Lps22ReadRegister::STATUS, 0x27),
    (Lps22ReadRegister::PRESSURE_OUT_XL, 0x28),
    (Lps22ReadRegister::PRESSURE_OUT_L, 0x29),
    (Lps22ReadRegister::PRESSURE_OUT_H, 0x2A),
    (Lps22ReadRegister::TEMP_OUT_L, 0x2B),
    (Lps22ReadRegister::TEMP_OUT_H, 0x2C),
    (Lps22ReadRegister::FIFO_DATA_OUT_PRESS_XL, 0x78),
    (Lps22ReadRegister::FIFO_DATA_OUT_PRESS_L, 0x79),
    (Lps22ReadRegister::FIFO_DATA_OUT_PRESS_H, 0x7A),
    (Lps22ReadRegister::FIFO_DATA_OUT_TEMP_L, 0x7B),
    (Lps22ReadRegister::FIFO_DATA_OUT_TEMP_H, 0x7C),
];

#[test]
fn device_addresses() {
    assert_eq!(I2cAddress::SA0_PAD_VOLTAGE.addr(), 0b1011101);
    assert_eq!(I2cAddress::SA0_PAD_GROUND.addr(), 0b1011100);
}

#[test]
fn device_addresses_fit_in_seven_bits() {
    assert!(I2cAddress::SA0_PAD_VOLTAGE.addr() < 0x80);
    assert!(I2cAddress::SA0_PAD_GROUND.addr() < 0x80);
    assert_ne!(I2cAddress::SA0_PAD_VOLTAGE.addr(), I2cAddress::SA0_PAD_GROUND.addr());
}

#[test]
fn read_write_register_addresses() {
    for (register, address) in READ_WRITE {
        assert_eq!(WriteRegister::addr(&register), address);
    }
}

#[test]
fn read_write_registers_read_where_they_write() {
    for (register, address) in READ_WRITE {
        assert_eq!(ReadRegister::addr(&register), address);
        assert_eq!(ReadRegister::addr(&register), WriteRegister::addr(&register));
    }
}

#[test]
fn read_only_register_addresses() {
    for (register, address) in READ_ONLY {
        assert_eq!(register.addr(), address);
    }
}

#[test]
fn no_two_registers_share_an_address() {
    let mut addresses: Vec<u8> = Vec::new();
    for (register, _) in READ_WRITE {
        addresses.push(WriteRegister::addr(&register));
    }
    for (register, _) in READ_ONLY {
        addresses.push(register.addr());
    }
    assert_eq!(addresses.len(), 28);
    for (i, a) in addresses.iter().enumerate() {
        for b in &addresses[i + 1..] {
            assert_ne!(a, b);
        }
    }
}
