use zcash_client_backend::proto::service::TreeState;
use zewif_zwl::{
    convert_seed_material, convert_transaction, convert_transactions, migrate_to_zewif,
    network_for_chain, reconcile_sapling_notes, Amount, AmountOutOfRange, Keys, MigrationError,
    Network, SaplingNoteData, SaplingOutputDescription, SaplingSpendDescription, SeedMaterial,
    Transaction, TransactionStatus, TxId, TxIn, TxMap, TxOut, UnrepresentableInput, Utxo, WalletTx,
    WalletTxns, ZewifWallet, ZwlWallet, MAX_MONEY, U256,
};

fn p2pkh_script() -> Vec<u8> {
    let mut script = vec![0x76, 0xa9, 0x14];
    for i in 0..20u8 {
        script.push(i);
    }
    script.push(0x88);
    script.push(0xac);
    script
}

fn seed32() -> Vec<u8> {
    (0..32u8).map(|i| i.wrapping_mul(7).wrapping_add(3)).collect()
}

fn bytes32(first: u8) -> [u8; 32] {
    let mut bytes = [0u8; 32];
    for i in 0..32 {
        bytes[i] = first.wrapping_add(i as u8);
    }
    bytes
}

fn empty_tx() -> WalletTx {
    WalletTx {
        unconfirmed: false,
        datetime: 0,
        utxos: Vec::new(),
        s_notes: Vec::new(),
        s_spent_nullifiers: Vec::new(),
    }
}

fn note(value: u64, tag: u8, memo: Option<Vec<u8>>, witness_height: u64) -> SaplingNoteData {
    SaplingNoteData {
        value: Amount::from_u64(value).unwrap(),
        cmu: bytes32(tag),
        nullifier: bytes32(tag.wrapping_add(100)),
        memo,
        witness_height,
    }
}

fn wallet(seed: Vec<u8>, chain_name: &str, txs: Vec<(TxId, WalletTx)>) -> ZwlWallet {
    let mut current = TxMap::new();
    for (id, tx) in txs {
        current.insert(id, tx);
    }
    ZwlWallet::new(
        25,
        chain_name.to_string(),
        WalletTxns { current },
        419200,
        None,
        Keys { seed },
        0,
    )
}

#[test]
fn confirmed_transaction_with_one_transparent_output() {
    let id = TxId::from_bytes(bytes32(1));
    let mut tx = empty_tx();
    tx.datetime = 1700000000;
    tx.utxos.push(Utxo { value: 5000, script: p2pkh_script(), spent: None });
    let w = wallet(seed32(), "main", vec![(id, tx)]);

    let top = migrate_to_zewif(&w).unwrap();
    assert_eq!(top.transactions.len(), 1);
    let migrated = top.transactions.get(&id).unwrap();
    assert_eq!(migrated.txid, id);
    assert_eq!(migrated.status, TransactionStatus::Confirmed);
    assert_eq!(migrated.timestamp, Some(1700000000));
    assert_eq!(migrated.inputs.len(), 0);
    assert_eq!(migrated.outputs.len(), 1);
    assert_eq!(migrated.outputs[0].value.to_u64(), 5000);
    assert_eq!(migrated.outputs[0].script_pubkey, p2pkh_script());
    assert_eq!(migrated.sapling_spends.len(), 0);
    assert_eq!(migrated.sapling_outputs.len(), 0);
    assert_eq!(migrated.orchard_actions, None);
    assert_eq!(migrated.sprout_joinsplits, None);
}

#[test]
fn zero_datetime_sets_no_timestamp() {
    let id = TxId::from_bytes(bytes32(2));
    let tx = empty_tx();
    let migrated = convert_transaction(id, &tx).unwrap();
    assert_eq!(migrated.timestamp, None);
}

#[test]
fn positive_datetime_sets_the_timestamp() {
    let id = TxId::from_bytes(bytes32(2));
    let mut tx = empty_tx();
    tx.datetime = 1;
    assert_eq!(convert_transaction(id, &tx).unwrap().timestamp, Some(1));
    tx.datetime = u64::MAX;
    assert_eq!(convert_transaction(id, &tx).unwrap().timestamp, Some(u64::MAX));
}

#[test]
fn unconfirmed_transaction_is_pending() {
    let id = TxId::from_bytes(bytes32(3));
    let mut tx = empty_tx();
    tx.unconfirmed = true;
    assert_eq!(convert_transaction(id, &tx).unwrap().status, TransactionStatus::Pending);
    tx.unconfirmed = false;
    assert_eq!(convert_transaction(id, &tx).unwrap().status, TransactionStatus::Confirmed);
}

#[test]
fn spent_note_gives_a_spend_and_an_output() {
    let id = TxId::from_bytes(bytes32(4));
    let n = note(70_000, 9, Some(vec![0xf6, 1, 2, 3]), 1_234_567);
    let mut tx = empty_tx();
    tx.s_spent_nullifiers.push(n.nullifier);
    tx.s_notes.push(n.clone());

    let migrated = convert_transaction(id, &tx).unwrap();
    assert_eq!(
        migrated.sapling_spends,
        vec![SaplingSpendDescription {
            spend_index: None,
            value: Some(Amount::from_u64(70_000).unwrap()),
            anchor_height: Some(1_234_567),
            nullifier: U256::from_bytes(n.nullifier),
            zkproof: None,
        }]
    );
    assert_eq!(
        migrated.sapling_outputs,
        vec![SaplingOutputDescription {
            output_index: None,
            commitment: U256::from_bytes(n.cmu),
            ephemeral_key: None,
            enc_ciphertext: None,
            memo: Some(vec![0xf6, 1, 2, 3]),
            note_commitment_tree_position: None,
        }]
    );
}

#[test]
fn unspent_note_gives_only_an_output() {
    let id = TxId::from_bytes(bytes32(5));
    let n = note(1, 20, None, 10);
    let mut tx = empty_tx();
    tx.s_spent_nullifiers.push(bytes32(77));
    tx.s_notes.push(n.clone());

    let migrated = convert_transaction(id, &tx).unwrap();
    assert!(migrated.sapling_spends.is_empty());
    assert_eq!(migrated.sapling_outputs.len(), 1);
    assert_eq!(migrated.sapling_outputs[0].commitment, U256::from_bytes(n.cmu));
    assert_eq!(migrated.sapling_outputs[0].memo, None);
}

#[test]
fn spends_and_outputs_keep_the_order_of_the_notes() {
    let a = note(1, 1, None, 100);
    let b = note(2, 2, None, 200);
    let c = note(3, 3, None, 300);
    let d = note(4, 4, None, 400);
    let notes = vec![a.clone(), b.clone(), c.clone(), d.clone()];
    let spent = vec![d.nullifier, bytes32(250), b.nullifier];

    let (spends, outputs) = reconcile_sapling_notes(&notes, &spent);
    assert_eq!(spends.len(), 2);
    assert_eq!(spends[0].nullifier, U256::from_bytes(b.nullifier));
    assert_eq!(spends[0].value.unwrap().to_u64(), 2);
    assert_eq!(spends[0].anchor_height, Some(200));
    assert_eq!(spends[1].nullifier, U256::from_bytes(d.nullifier));
    assert_eq!(spends[1].value.unwrap().to_u64(), 4);
    assert_eq!(spends[1].anchor_height, Some(400));
    assert_eq!(outputs.len(), 4);
    for (i, n) in notes.iter().enumerate() {
        assert_eq!(outputs[i].commitment, U256::from_bytes(n.cmu));
    }
}

#[test]
fn anchor_height_is_the_witness_height_cut_to_32_bits() {
    let n = note(5, 30, None, (1u64 << 32) + 5);
    let (spends, _) = reconcile_sapling_notes(&vec![n.clone()], &vec![n.nullifier]);
    assert_eq!(spends[0].anchor_height, Some(5));
    let m = note(5, 31, None, u32::MAX as u64);
    let (spends, _) = reconcile_sapling_notes(&vec![m.clone()], &vec![m.nullifier]);
    assert_eq!(spends[0].anchor_height, Some(u32::MAX));
}

#[test]
fn reconciling_no_notes_gives_nothing() {
    let (spends, outputs) = reconcile_sapling_notes(&Vec::new(), &vec![bytes32(1)]);
    assert!(spends.is_empty());
    assert!(outputs.is_empty());
}

#[test]
fn transparent_record_is_never_an_input() {
    let unspent = Utxo { value: 5000, script: p2pkh_script(), spent: None };
    assert_eq!(TxIn::try_from(&unspent), Err(UnrepresentableInput));
    let spent = Utxo { value: 0, script: Vec::new(), spent: Some(TxId::from_bytes(bytes32(8))) };
    assert_eq!(TxIn::try_from(&spent), Err(UnrepresentableInput));
}

#[test]
fn transparent_record_is_an_output_with_its_value_and_script() {
    let utxo = Utxo { value: 5000, script: p2pkh_script(), spent: None };
    let out = TxOut::try_from(&utxo).unwrap();
    assert_eq!(out.value.to_u64(), 5000);
    assert_eq!(out.script_pubkey, p2pkh_script());

    let largest = Utxo { value: MAX_MONEY, script: Vec::new(), spent: None };
    let out = TxOut::try_from(&largest).unwrap();
    assert_eq!(out.value.to_u64(), 2_100_000_000_000_000);
    assert!(out.script_pubkey.is_empty());
}

#[test]
fn transparent_value_beyond_all_money_is_out_of_range() {
    let utxo = Utxo { value: MAX_MONEY + 1, script: p2pkh_script(), spent: None };
    assert_eq!(TxOut::try_from(&utxo), Err(AmountOutOfRange { value: MAX_MONEY + 1 }));
    let utxo = Utxo { value: u64::MAX, script: Vec::new(), spent: None };
    assert_eq!(TxOut::try_from(&utxo), Err(AmountOutOfRange { value: u64::MAX }));
}

#[test]
fn every_transparent_record_becomes_an_output_spent_or_not() {
    let id = TxId::from_bytes(bytes32(6));
    let mut tx = empty_tx();
    tx.utxos.push(Utxo { value: 1, script: vec![1], spent: None });
    tx.utxos.push(Utxo { value: 2, script: vec![2, 2], spent: Some(TxId::from_bytes(bytes32(9))) });
    tx.utxos.push(Utxo { value: 0, script: Vec::new(), spent: None });
    let migrated = convert_transaction(id, &tx).unwrap();
    assert!(migrated.inputs.is_empty());
    assert_eq!(migrated.outputs.len(), 3);
    assert_eq!(migrated.outputs[0].value.to_u64(), 1);
    assert_eq!(migrated.outputs[0].script_pubkey, vec![1]);
    assert_eq!(migrated.outputs[1].value.to_u64(), 2);
    assert_eq!(migrated.outputs[1].script_pubkey, vec![2, 2]);
    assert_eq!(migrated.outputs[2].value.to_u64(), 0);
    assert_eq!(migrated.outputs[2].script_pubkey, Vec::<u8>::new());
}

#[test]
fn out_of_range_output_fails_the_transaction_with_its_identifier() {
    let id = TxId::from_bytes(bytes32(7));
    let mut tx = empty_tx();
    tx.utxos.push(Utxo { value: 1, script: vec![1], spent: None });
    tx.utxos.push(Utxo { value: MAX_MONEY + 2, script: vec![2], spent: None });
    tx.utxos.push(Utxo { value: MAX_MONEY + 3, script: vec![3], spent: None });
    assert_eq!(
        convert_transaction(id, &tx),
        Err(MigrationError::AmountOutOfRange { tx_id: id, value: MAX_MONEY + 2 })
    );
}

#[test]
fn first_failing_transaction_aborts_the_migration() {
    let good = TxId::from_bytes(bytes32(10));
    let bad = TxId::from_bytes(bytes32(11));
    let worse = TxId::from_bytes(bytes32(12));
    let mut tx_good = empty_tx();
    tx_good.utxos.push(Utxo { value: 10, script: vec![1], spent: None });
    let mut tx_bad = empty_tx();
    tx_bad.utxos.push(Utxo { value: MAX_MONEY + 1, script: vec![1], spent: None });
    let mut tx_worse = empty_tx();
    tx_worse.utxos.push(Utxo { value: u64::MAX, script: vec![1], spent: None });
    let w = wallet(seed32(), "testnet", vec![(good, tx_good), (bad, tx_bad), (worse, tx_worse)]);
    let expected = MigrationError::AmountOutOfRange { tx_id: bad, value: MAX_MONEY + 1 };
    assert_eq!(convert_transactions(&w), Err(expected.clone()));
    assert_eq!(migrate_to_zewif(&w), Err(expected));
}

#[test]
fn transactions_keep_their_identifiers_and_order() {
    let ids: Vec<TxId> = (0..5u8).map(|i| TxId::from_bytes(bytes32(40 - i))).collect();
    let mut txs = Vec::new();
    for (i, id) in ids.iter().enumerate() {
        let mut tx = empty_tx();
        tx.datetime = 1000 + i as u64;
        txs.push((*id, tx));
    }
    let w = wallet(seed32(), "zs", txs);
    let migrated = convert_transactions(&w).unwrap();
    assert_eq!(migrated.len(), 5);
    for (i, id) in ids.iter().enumerate() {
        assert_eq!(migrated.key_at(i), *id);
        assert_eq!(migrated.value_at(i).txid, *id);
        assert_eq!(migrated.value_at(i).timestamp, Some(1000 + i as u64));
        assert_eq!(migrated.get(id).unwrap().timestamp, Some(1000 + i as u64));
    }
}

#[test]
fn seed_of_32_bytes_round_trips() {
    let w = wallet(seed32(), "main", Vec::new());
    let material = convert_seed_material(&w).unwrap().unwrap();
    let SeedMaterial::PreBIP39Seed(bytes) = material;
    assert_eq!(bytes.to_vec(), seed32());

    let top = migrate_to_zewif(&w).unwrap();
    assert_eq!(top.wallets.len(), 1);
    assert_eq!(top.wallets[0].seed_material, Some(material));
}

#[test]
fn seed_of_another_length_is_refused() {
    for length in [0usize, 1, 31, 33, 64] {
        let w = wallet(vec![7u8; length], "main", Vec::new());
        assert_eq!(convert_seed_material(&w), Err(MigrationError::InvalidSeedLength { length }));
        assert_eq!(migrate_to_zewif(&w), Err(MigrationError::InvalidSeedLength { length }));
    }
}

#[test]
fn chain_names_map_to_networks() {
    assert_eq!(network_for_chain(&"zs".to_string()), Some(Network::Main));
    assert_eq!(network_for_chain(&"mainnet".to_string()), Some(Network::Main));
    assert_eq!(network_for_chain(&"main".to_string()), Some(Network::Main));
    assert_eq!(network_for_chain(&"testnet".to_string()), Some(Network::Test));
    assert_eq!(network_for_chain(&"regtest".to_string()), Some(Network::Regtest));
    assert_eq!(network_for_chain(&"foo".to_string()), None);
    assert_eq!(network_for_chain(&"".to_string()), None);
    assert_eq!(network_for_chain(&"Main".to_string()), None);
    assert_eq!(network_for_chain(&"test".to_string()), None);
    assert_eq!(network_for_chain(&"regtest ".to_string()), None);
}

#[test]
fn regtest_wallet_migrates_to_regtest() {
    let w = wallet(seed32(), "regtest", Vec::new());
    let top = migrate_to_zewif(&w).unwrap();
    assert_eq!(top.wallets[0].network, Network::Regtest);
    assert!(top.transactions.is_empty());
}

#[test]
fn unknown_chain_is_refused_with_its_name() {
    let w = wallet(seed32(), "foo", Vec::new());
    assert_eq!(
        migrate_to_zewif(&w),
        Err(MigrationError::UnsupportedChain { chain_name: "foo".to_string() })
    );
}

#[test]
fn unknown_chain_is_refused_before_any_transaction_is_looked_at() {
    let id = TxId::from_bytes(bytes32(13));
    let mut tx = empty_tx();
    tx.utxos.push(Utxo { value: u64::MAX, script: Vec::new(), spent: None });
    let w = wallet(seed32(), "foo", vec![(id, tx)]);
    assert_eq!(
        migrate_to_zewif(&w),
        Err(MigrationError::UnsupportedChain { chain_name: "foo".to_string() })
    );
}

#[test]
fn bad_seed_is_reported_before_an_unknown_chain() {
    let w = wallet(vec![1u8; 31], "foo", Vec::new());
    assert_eq!(migrate_to_zewif(&w), Err(MigrationError::InvalidSeedLength { length: 31 }));
}

#[test]
fn migrating_twice_gives_the_same_container() {
    let id = TxId::from_bytes(bytes32(14));
    let n = note(9, 50, Some(vec![1, 2, 3]), 77);
    let mut tx = empty_tx();
    tx.datetime = 1700000000;
    tx.utxos.push(Utxo { value: 5000, script: p2pkh_script(), spent: None });
    tx.s_spent_nullifiers.push(n.nullifier);
    tx.s_notes.push(n);
    let w = wallet(seed32(), "testnet", vec![(id, tx)]);
    let first = migrate_to_zewif(&w).unwrap();
    let second = migrate_to_zewif(&w).unwrap();
    assert_eq!(first, second);
    assert_eq!(first.wallets, vec![{
        let mut expected = ZewifWallet::new(Network::Test);
        let mut seed = [0u8; 32];
        seed.copy_from_slice(&seed32());
        expected.set_seed_material(SeedMaterial::PreBIP39Seed(seed));
        expected
    }]);
}

#[test]
fn wallet_getters_return_the_fields() {
    let w = wallet(seed32(), "main", Vec::new());
    assert_eq!(w.version(), 25);
    assert_eq!(w.chain_name(), "main");
    assert_eq!(w.birthday(), 419200);
    assert_eq!(w.verified_tree(), &None);
    assert_eq!(w.remaining(), 0);
}

#[test]
fn wallet_carries_its_verified_tree() {
    let mut tree = TreeState::default();
    tree.network = "main".to_string();
    tree.height = 1_500_000;
    tree.hash = "00".repeat(32);
    tree.time = 1_650_000_000;
    tree.sapling_tree = "01ab".to_string();
    let w = ZwlWallet::new(
        3,
        "zs".to_string(),
        WalletTxns { current: TxMap::new() },
        1_000_000,
        Some(tree.clone()),
        Keys { seed: seed32() },
        17,
    );
    assert_eq!(w.verified_tree(), &Some(tree));
    assert_eq!(w.version(), 3);
    assert_eq!(w.birthday(), 1_000_000);
    assert_eq!(w.remaining(), 17);
    assert_eq!(w.keys.seed, seed32());
    assert!(migrate_to_zewif(&w).is_ok());
}

#[test]
fn migrated_transaction_is_what_its_parts_say() {
    let id = TxId::from_bytes(bytes32(15));
    let n = note(9, 60, None, 5);
    let mut tx = empty_tx();
    tx.unconfirmed = true;
    tx.datetime = 42;
    tx.utxos.push(Utxo { value: 3, script: vec![9, 9], spent: None });
    tx.s_notes.push(n.clone());
    let expected = Transaction {
        txid: id,
        status: TransactionStatus::Pending,
        timestamp: Some(42),
        inputs: Vec::new(),
        outputs: vec![TxOut { value: Amount::from_u64(3).unwrap(), script_pubkey: vec![9, 9] }],
        sapling_spends: Vec::new(),
        sapling_outputs: vec![SaplingOutputDescription {
            output_index: None,
            commitment: U256::from_bytes(n.cmu),
            ephemeral_key: None,
            enc_ciphertext: None,
            memo: None,
            note_commitment_tree_position: None,
        }],
        orchard_actions: None,
        sprout_joinsplits: None,
    };
    assert_eq!(convert_transaction(id, &tx), Ok(expected));
}
