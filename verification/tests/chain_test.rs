use std::str::FromStr;

use emerald_client::chain::{BlockchainType, ChainRef};

#[test]
fn test_parse_blockchain_names() {
    assert_eq!(ChainRef::from_str("bitcoin").unwrap(), ChainRef::ChainBitcoin);
    assert_eq!(ChainRef::from_str("btc").unwrap(), ChainRef::ChainBitcoin);
    assert_eq!(ChainRef::from_str("testnet_bitcoin").unwrap(), ChainRef::ChainTestnetBitcoin);

    assert_eq!(ChainRef::from_str("eth").unwrap(), ChainRef::ChainEthereum);
    assert_eq!(ChainRef::from_str("ethereum").unwrap(), ChainRef::ChainEthereum);
    assert_eq!(ChainRef::from_str("ETHEREUM").unwrap(), ChainRef::ChainEthereum);

    assert_eq!(ChainRef::from_str("etc").unwrap(), ChainRef::ChainEthereumClassic);
    assert_eq!(ChainRef::from_str("ethereum-classic").unwrap(), ChainRef::ChainEthereumClassic);
    assert_eq!(ChainRef::from_str("ETHEREUM-CLASSIC").unwrap(), ChainRef::ChainEthereumClassic);
    assert_eq!(ChainRef::from_str("ETHEREUM_CLASSIC").unwrap(), ChainRef::ChainEthereumClassic);
}

#[test]
fn parse_strips_scheme_prefix_and_reads_ids() {
    assert_eq!(ChainRef::from_str("CHAIN_ETHEREUM").unwrap(), ChainRef::ChainEthereum);
    assert_eq!(ChainRef::from_str("CHAIN_TESTNET_BITCOIN").unwrap(), ChainRef::ChainTestnetBitcoin);
    // the prefix may repeat and is only recognised in uppercase
    assert_eq!(ChainRef::from_str("CHAIN_CHAIN_BTC").unwrap(), ChainRef::ChainBitcoin);

    assert_eq!(ChainRef::from_str("1").unwrap(), ChainRef::ChainBitcoin);
    assert_eq!(ChainRef::from_str("100").unwrap(), ChainRef::ChainEthereum);
    assert_eq!(ChainRef::from_str("101").unwrap(), ChainRef::ChainEthereumClassic);
    assert_eq!(ChainRef::from_str("10003").unwrap(), ChainRef::ChainTestnetBitcoin);
    assert_eq!(ChainRef::from_str("10009").unwrap(), ChainRef::ChainSepolia);

    assert_eq!(ChainRef::from_str("Sepolia-Testnet").unwrap(), ChainRef::ChainSepolia);
    assert_eq!(ChainRef::from_str("sepolia").unwrap(), ChainRef::ChainSepolia);
}

#[test]
fn parse_rejects_unknown_names() {
    assert!(ChainRef::from_str("").is_err());
    assert!(ChainRef::from_str("dogecoin").is_err());
    // a lowercase scheme prefix is not stripped
    assert!(ChainRef::from_str("chain_bitcoin").is_err());
    // input outside ASCII never matches a keyword
    assert!(ChainRef::from_str("btç").is_err());
}

#[test]
fn codes_and_full_names() {
    assert_eq!(ChainRef::ChainBitcoin.code(), "BTC");
    assert_eq!(ChainRef::ChainEthereum.code(), "ETH");
    assert_eq!(ChainRef::ChainTestnetBitcoin.code(), "TESTNET_BITCOIN");
    assert_eq!(ChainRef::ChainUnspecified.code(), "UNSPECIFIED");

    assert_eq!(ChainRef::ChainBitcoin.full_name(), "Bitcoin");
    assert_eq!(ChainRef::ChainEthereumClassic.full_name(), "Ethereum Classic");
    assert_eq!(ChainRef::ChainRsk.full_name(), "Bitcoin RSK");
    assert_eq!(ChainRef::ChainSepolia.full_name(), "Sepolia Testnet");
}

#[test]
fn blockchain_type_families() {
    assert!(matches!(BlockchainType::try_from(ChainRef::ChainBitcoin), Ok(BlockchainType::Bitcoin)));
    assert!(matches!(
        BlockchainType::try_from(ChainRef::ChainTestnetBitcoin),
        Ok(BlockchainType::Bitcoin)
    ));
    assert!(matches!(
        BlockchainType::try_from(ChainRef::ChainEthereum),
        Ok(BlockchainType::Ethereum)
    ));
    assert!(matches!(
        BlockchainType::try_from(ChainRef::ChainSepolia),
        Ok(BlockchainType::Ethereum)
    ));
    assert!(BlockchainType::try_from(ChainRef::ChainUnspecified).is_err());
}
