use orion_runtime::account::{AccountId, Address};
use orion_runtime::codec::{pack, unpack, HEADER_BYTES, HEADER_WORDS};
use orion_runtime::config::H256;
use orion_runtime::extrinsic::{
    EthereumSignature, EthereumTransaction, Extrinsic, NativeExtrinsic, SignedExtra,
};
use orion_runtime::validation::Era;
use orion_runtime::weight::{DispatchClass, Weight};

fn native(era: Era, class: DispatchClass, call: Vec<u8>) -> Extrinsic {
    Extrinsic::Native(NativeExtrinsic {
        signer: AccountId { high: u128::MAX, low: 0x0102_0304 },
        call,
        extra: SignedExtra {
            spec_version: 100,
            transaction_version: 1,
            genesis_hash: H256 { high: 7, low: 8 },
            era,
            nonce: u32::MAX,
        },
        class,
        weight: Weight::from_parts(u64::MAX, 12),
    })
}

fn ethereum(to: Option<Address>, data: Vec<u8>) -> Extrinsic {
    Extrinsic::SelfContained(EthereumTransaction {
        nonce: 9,
        gas_price: 1_000_000_000,
        gas_limit: 21_000,
        to,
        value: u128::MAX,
        data,
        chain_id: 1337,
        signature: EthereumSignature {
            v: 2709,
            r: H256 { high: 1, low: 2 },
            s: H256 { high: 3, low: 4 },
        },
    })
}

#[test]
fn header_sizes_agree() {
    assert_eq!(HEADER_WORDS, 13);
    assert_eq!(HEADER_BYTES, 1 + 16 * HEADER_WORDS);
}

#[test]
fn words_are_little_endian() {
    let mut out = vec![0xAAu8];
    pack(&vec![0x0102_0304u128, 1u128 << 120], &mut out);
    let mut expected = vec![0xAAu8, 4, 3, 2, 1];
    expected.extend(vec![0u8; 12]);
    expected.extend(vec![0u8; 15]);
    expected.push(1);
    assert_eq!(out, expected);
    assert_eq!(unpack(&out[1..], 2), vec![0x0102_0304u128, 1u128 << 120]);
    assert_eq!(unpack(&out[1..], 1), vec![0x0102_0304u128]);
    assert_eq!(unpack(&out[1..], 0), Vec::<u128>::new());
}

#[test]
fn native_extrinsic_round_trips() {
    let cases = vec![
        native(Era::Immortal, DispatchClass::Normal, vec![]),
        native(Era::Mortal { birth: 5, period: 64 }, DispatchClass::Operational, vec![1, 2, 3]),
        native(Era::Mortal { birth: 0, period: 0 }, DispatchClass::Mandatory, vec![0; 40]),
    ];
    for x in cases {
        let bytes = x.encode();
        assert_eq!(bytes.len(), HEADER_BYTES + match &x {
            Extrinsic::Native(n) => n.call.len(),
            Extrinsic::SelfContained(t) => t.data.len(),
        });
        assert_eq!(bytes[0], 0);
        let back = Extrinsic::decode(&bytes).unwrap();
        assert_eq!(back, x);
        assert_eq!(back.encode(), bytes);
    }
}

#[test]
fn ethereum_transaction_round_trips() {
    let cases = vec![
        ethereum(None, vec![]),
        ethereum(Some(Address { head: u32::MAX, tail: u128::MAX }), vec![0xFF, 0, 0xFF]),
        ethereum(Some(Address { head: 0, tail: 0 }), vec![5]),
    ];
    for x in cases {
        let bytes = x.encode();
        assert_eq!(bytes[0], 1);
        let back = Extrinsic::decode(&bytes).unwrap();
        assert_eq!(back, x);
        assert_eq!(back.encode(), bytes);
    }
}

#[test]
fn encoding_lays_fields_out_in_order() {
    let bytes = native(Era::Mortal { birth: 5, period: 64 }, DispatchClass::Operational, vec![9, 8]).encode();
    assert_eq!(bytes.len(), 211);
    assert_eq!(&bytes[1..17], &[0xFFu8; 16][..]);
    assert_eq!(&bytes[17..21], &[4u8, 3, 2, 1][..]);
    assert_eq!(bytes[1 + 2 * 16], 100);
    assert_eq!(bytes[1 + 6 * 16], 1);
    assert_eq!(bytes[1 + 7 * 16], 5);
    assert_eq!(bytes[1 + 8 * 16], 64);
    assert_eq!(bytes[1 + 10 * 16], 1);
    assert_eq!(&bytes[209..], &[9u8, 8][..]);
}

#[test]
fn bytes_that_encode_nothing_are_refused() {
    let good = native(Era::Immortal, DispatchClass::Normal, vec![1]).encode();
    assert!(Extrinsic::decode(&good).is_some());
    assert_eq!(Extrinsic::decode(&[]), None);
    assert_eq!(Extrinsic::decode(&good[..208]), None);
    assert!(Extrinsic::decode(&good[..209]).is_some());

    let mut bad_tag = good.clone();
    bad_tag[0] = 2;
    assert_eq!(Extrinsic::decode(&bad_tag), None);

    let mut wide_version = good.clone();
    wide_version[1 + 2 * 16 + 4] = 1;
    assert_eq!(Extrinsic::decode(&wide_version), None);

    let mut padded_era = good.clone();
    padded_era[1 + 7 * 16] = 1;
    assert_eq!(Extrinsic::decode(&padded_era), None);

    let mut bad_era = good.clone();
    bad_era[1 + 6 * 16] = 2;
    assert_eq!(Extrinsic::decode(&bad_era), None);

    let mut bad_class = good.clone();
    bad_class[1 + 10 * 16] = 3;
    assert_eq!(Extrinsic::decode(&bad_class), None);

    let mut wide_weight = good.clone();
    wide_weight[1 + 12 * 16 + 8] = 1;
    assert_eq!(Extrinsic::decode(&wide_weight), None);

    let eth = ethereum(None, vec![]).encode();
    let mut padded_to = eth.clone();
    padded_to[1 + 5 * 16] = 1;
    assert_eq!(Extrinsic::decode(&padded_to), None);
    let mut wide_head = ethereum(Some(Address { head: 1, tail: 1 }), vec![]).encode();
    wide_head[1 + 4 * 16 + 4] = 1;
    assert_eq!(Extrinsic::decode(&wide_head), None);
    let mut wide_chain = eth.clone();
    wide_chain[1 + 7 * 16 + 8] = 1;
    assert_eq!(Extrinsic::decode(&wide_chain), None);
}

#[test]
fn the_shape_is_part_of_the_encoding() {
    let mut bytes = native(Era::Immortal, DispatchClass::Normal, vec![1]).encode();
    bytes[0] = 1;
    match Extrinsic::decode(&bytes) {
        Some(Extrinsic::Native(_)) => panic!("a native extrinsic came out of the other shape"),
        _ => {},
    }
}
