use helloworld::instruction::HelloInstruction;
use helloworld::GreetingAccount;
use helloworld::InvocationError;

#[test]
fn increment_adds_one() {
    let rec = GreetingAccount { counter: 41 };
    assert_eq!(rec.apply(HelloInstruction::Increment).counter, 42);
}

#[test]
fn decrement_subtracts_one() {
    let rec = GreetingAccount { counter: 42 };
    assert_eq!(rec.apply(HelloInstruction::Decrement).counter, 41);
}

#[test]
fn increment_wraps_at_the_maximum() {
    let rec = GreetingAccount { counter: 0xffff_ffff };
    assert_eq!(rec.apply(HelloInstruction::Increment).counter, 0);
}

#[test]
fn decrement_wraps_at_zero() {
    let rec = GreetingAccount { counter: 0 };
    assert_eq!(rec.apply(HelloInstruction::Decrement).counter, 0xffff_ffff);
}

#[test]
fn set_overwrites_any_prior_value() {
    let values: [u32; 4] = [0, 1, 12345, 0xffff_ffff];
    let priors: [u32; 4] = [0, 7, 0xffff_ffff, 42];
    for &value in values.iter() {
        for &prior in priors.iter() {
            let rec = GreetingAccount { counter: prior };
            assert_eq!(rec.apply(HelloInstruction::SetTo(value)).counter, value);
        }
    }
}

#[test]
fn serialize_writes_four_little_endian_bytes() {
    let rec = GreetingAccount { counter: 0x0a0b0c0d };
    assert_eq!(rec.serialize(), vec![0x0d, 0x0c, 0x0b, 0x0a]);
    let zero = GreetingAccount { counter: 0 };
    assert_eq!(zero.serialize(), vec![0, 0, 0, 0]);
}

#[test]
fn deserialize_reads_four_little_endian_bytes() {
    assert_eq!(
        GreetingAccount::try_from_slice(&[0x0d, 0x0c, 0x0b, 0x0a]),
        Ok(GreetingAccount { counter: 0x0a0b0c0d })
    );
    assert_eq!(
        GreetingAccount::try_from_slice(&[0, 0, 0, 0]),
        Ok(GreetingAccount { counter: 0 })
    );
}

#[test]
fn deserialize_rejects_wrong_lengths() {
    assert_eq!(
        GreetingAccount::try_from_slice(&[]),
        Err(InvocationError::DeserializeError)
    );
    assert_eq!(
        GreetingAccount::try_from_slice(&[1, 2, 3]),
        Err(InvocationError::DeserializeError)
    );
    assert_eq!(
        GreetingAccount::try_from_slice(&[1, 2, 3, 4, 5]),
        Err(InvocationError::DeserializeError)
    );
}

#[test]
fn serialize_then_deserialize_returns_the_record() {
    let values: [u32; 5] = [0, 1, 0x100, 0xdead_beef, 0xffff_ffff];
    for &value in values.iter() {
        let rec = GreetingAccount { counter: value };
        assert_eq!(GreetingAccount::try_from_slice(&rec.serialize()), Ok(rec));
    }
}
