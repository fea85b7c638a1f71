//! Blockchain references: their codes, display names, families, and the
//! parser that reads a reference from a user-supplied name.
//!
//! Parsing is case-insensitive, ignores `-` and `_` separators, accepts a
//! chain's numeric id, and strips any number of leading uppercase `CHAIN_`
//! scheme prefixes. It works on the UTF-8 bytes of the input; no keyword
//! contains a byte outside ASCII, so input with other characters never
//! matches.

use vstd::prelude::*;
use vstd::string::StringSliceAdditionalSpecFns;
use vstd::string::StrSliceExecFns;

verus! {

/// Reference to a blockchain.
#[derive(Debug, Clone, Copy, PartialEq, Eq, Structural)]
pub enum ChainRef {
    ChainUnspecified,
    ChainBitcoin,
    ChainEthereum,
    ChainEthereumClassic,
    ChainFantom,
    ChainMatic,
    ChainRsk,
    ChainMorden,
    ChainKovan,
    ChainTestnetBitcoin,
    ChainGoerli,
    ChainRopsten,
    ChainRinkeby,
    ChainHolesky,
    ChainSepolia,
}

/// The short code of each chain.
pub open spec fn spec_code(chain: ChainRef) -> Seq<char> {
    match chain {
        ChainRef::ChainUnspecified => "UNSPECIFIED"@,
        ChainRef::ChainBitcoin => "BTC"@,
        ChainRef::ChainEthereum => "ETH"@,
        ChainRef::ChainEthereumClassic => "ETC"@,
        ChainRef::ChainFantom => "FTM"@,
        ChainRef::ChainMatic => "MATIC"@,
        ChainRef::ChainRsk => "RSK"@,
        ChainRef::ChainMorden => "MORDEN"@,
        ChainRef::ChainKovan => "KOVAN"@,
        ChainRef::ChainTestnetBitcoin => "TESTNET_BITCOIN"@,
        ChainRef::ChainGoerli => "GOERLI"@,
        ChainRef::ChainRopsten => "ROPSTEN"@,
        ChainRef::ChainRinkeby => "RINKEBY"@,
        ChainRef::ChainHolesky => "HOLESKY"@,
        ChainRef::ChainSepolia => "SEPOLIA"@,
    }
}

/// The full display name of each chain.
pub open spec fn spec_full_name(chain: ChainRef) -> Seq<char> {
    match chain {
        ChainRef::ChainUnspecified => "Unspecified"@,
        ChainRef::ChainBitcoin => "Bitcoin"@,
        ChainRef::ChainEthereum => "Ethereum"@,
        ChainRef::ChainEthereumClassic => "Ethereum Classic"@,
        ChainRef::ChainFantom => "Fantom"@,
        ChainRef::ChainMatic => "Matic"@,
        ChainRef::ChainRsk => "Bitcoin RSK"@,
        ChainRef::ChainMorden => "Morden"@,
        ChainRef::ChainKovan => "Kovan"@,
        ChainRef::ChainTestnetBitcoin => "Bitcoin Testnet"@,
        ChainRef::ChainGoerli => "Goerli Testnet"@,
        ChainRef::ChainRopsten => "Ropsten Testnet"@,
        ChainRef::ChainRinkeby => "Rinkeby Testnet"@,
        ChainRef::ChainHolesky => "Holesky Testnet"@,
        ChainRef::ChainSepolia => "Sepolia Testnet"@,
    }
}

impl ChainRef {
    /// A short code for the blockchain (ex. `BTC` for Bitcoin, etc.)
    pub fn code(&self) -> (code: String)
        ensures
            code@ == spec_code(*self),
    {
        match self {
            ChainRef::ChainUnspecified => "UNSPECIFIED".to_owned(),
            ChainRef::ChainBitcoin => "BTC".to_owned(),
            ChainRef::ChainEthereum => "ETH".to_owned(),
            ChainRef::ChainEthereumClassic => "ETC".to_owned(),
            ChainRef::ChainFantom => "FTM".to_owned(),
            ChainRef::ChainMatic => "MATIC".to_owned(),
            ChainRef::ChainRsk => "RSK".to_owned(),
            ChainRef::ChainMorden => "MORDEN".to_owned(),
            ChainRef::ChainKovan => "KOVAN".to_owned(),
            ChainRef::ChainTestnetBitcoin => "TESTNET_BITCOIN".to_owned(),
            ChainRef::ChainGoerli => "GOERLI".to_owned(),
            ChainRef::ChainRopsten => "ROPSTEN".to_owned(),
            ChainRef::ChainRinkeby => "RINKEBY".to_owned(),
            ChainRef::ChainHolesky => "HOLESKY".to_owned(),
            ChainRef::ChainSepolia => "SEPOLIA".to_owned(),
        }
    }

    /// A full name for the blockchain (ex. `Bitcoin` for Bitcoin, etc.)
    pub fn full_name(&self) -> (name: String)
        ensures
            name@ == spec_full_name(*self),
    {
        match self {
            ChainRef::ChainUnspecified => "Unspecified".to_owned(),
            ChainRef::ChainBitcoin => "Bitcoin".to_owned(),
            ChainRef::ChainEthereum => "Ethereum".to_owned(),
            ChainRef::ChainEthereumClassic => "Ethereum Classic".to_owned(),
            ChainRef::ChainFantom => "Fantom".to_owned(),
            ChainRef::ChainMatic => "Matic".to_owned(),
            ChainRef::ChainRsk => "Bitcoin RSK".to_owned(),
            ChainRef::ChainMorden => "Morden".to_owned(),
            ChainRef::ChainKovan => "Kovan".to_owned(),
            ChainRef::ChainTestnetBitcoin => "Bitcoin Testnet".to_owned(),
            ChainRef::ChainGoerli => "Goerli Testnet".to_owned(),
            ChainRef::ChainRopsten => "Ropsten Testnet".to_owned(),
            ChainRef::ChainRinkeby => "Rinkeby Testnet".to_owned(),
            ChainRef::ChainHolesky => "Holesky Testnet".to_owned(),
            ChainRef::ChainSepolia => "Sepolia Testnet".to_owned(),
        }
    }
}

/// The broad family a chain belongs to, deciding which address and
/// transaction formats apply.
#[derive(Debug, Clone, Copy, PartialEq, Eq, Structural)]
pub enum BlockchainType {
    Bitcoin,
    Ethereum,
}

/// The family of each chain; the unspecified chain belongs to none.
pub open spec fn spec_blockchain_type(chain: ChainRef) -> Result<BlockchainType, ()> {
    match chain {
        ChainRef::ChainUnspecified => Err(()),
        ChainRef::ChainBitcoin | ChainRef::ChainTestnetBitcoin => Ok(BlockchainType::Bitcoin),
        _ => Ok(BlockchainType::Ethereum),
    }
}

impl BlockchainType {
    /// The family of the given chain.
    pub fn try_from(value: ChainRef) -> (family: Result<Self, ()>)
        ensures
            family == spec_blockchain_type(value),
    {
        match value {
            ChainRef::ChainBitcoin | ChainRef::ChainTestnetBitcoin => Ok(BlockchainType::Bitcoin),
            ChainRef::ChainEthereum
            | ChainRef::ChainEthereumClassic
            | ChainRef::ChainMatic
            | ChainRef::ChainFantom
            | ChainRef::ChainRsk
            | ChainRef::ChainKovan
            | ChainRef::ChainMorden
            | ChainRef::ChainGoerli
            | ChainRef::ChainRinkeby
            | ChainRef::ChainRopsten
            | ChainRef::ChainHolesky
            | ChainRef::ChainSepolia => Ok(BlockchainType::Ethereum),
            ChainRef::ChainUnspecified => Err(()),
        }
    }
}

/// The two separator bytes parsing ignores: `-` and `_`.
pub open spec fn is_separator(b: u8) -> bool {
    b == 45 || b == 95
}

/// ASCII lowercasing of one byte; bytes outside `A`–`Z` pass unchanged.
pub open spec fn lower_byte(b: u8) -> u8 {
    if 65 <= b && b <= 90 {
        (b + 32) as u8
    } else {
        b
    }
}

/// The canonical form of a name's bytes: separators dropped, ASCII
/// uppercase folded to lowercase.
pub open spec fn canon_bytes(b: Seq<u8>) -> Seq<u8>
    decreases b.len(),
{
    if b.len() == 0 {
        Seq::empty()
    } else if is_separator(b[0]) {
        canon_bytes(b.skip(1))
    } else {
        seq![lower_byte(b[0])] + canon_bytes(b.skip(1))
    }
}

/// Any number of leading uppercase `CHAIN_` scheme prefixes, removed.
pub open spec fn strip_chain_prefix(b: Seq<u8>) -> Seq<u8>
    decreases b.len(),
{
    if b.len() >= 6 && b.subrange(0, 6) == "CHAIN_".spec_bytes() {
        strip_chain_prefix(b.skip(6))
    } else {
        b
    }
}

/// Which chain a canonical name denotes: its spelled-out name, its short
/// code, or its numeric id.
pub open spec fn spec_chain_for_name(k: Seq<u8>) -> Result<ChainRef, ()> {
    if k == "bitcoin".spec_bytes() || k == "btc".spec_bytes() || k == "1".spec_bytes() {
        Ok(ChainRef::ChainBitcoin)
    } else if k == "testnetbitcoin".spec_bytes() || k == "bitcointestnet".spec_bytes() || k
        == "btctest".spec_bytes() || k == "10003".spec_bytes() {
        Ok(ChainRef::ChainTestnetBitcoin)
    } else if k == "ethereum".spec_bytes() || k == "eth".spec_bytes() || k == "100".spec_bytes() {
        Ok(ChainRef::ChainEthereum)
    } else if k == "ethereumclassic".spec_bytes() || k == "etc".spec_bytes() || k
        == "101".spec_bytes() {
        Ok(ChainRef::ChainEthereumClassic)
    } else if k == "sepolia".spec_bytes() || k == "testnetsepolia".spec_bytes() || k
        == "sepoliatestnet".spec_bytes() || k == "10009".spec_bytes() {
        Ok(ChainRef::ChainSepolia)
    } else {
        Err(())
    }
}

/// What parsing a name means, over the UTF-8 bytes of the input.
pub open spec fn spec_parse(b: Seq<u8>) -> Result<ChainRef, ()> {
    spec_chain_for_name(canon_bytes(strip_chain_prefix(b)))
}

/// Elementwise comparison of a canonical name against one keyword.
fn keyword_eq(k: &Vec<u8>, keyword: &str) -> (r: bool)
    ensures
        r == (k@ == keyword.spec_bytes()),
{
    let kw: Vec<u8> = keyword.as_bytes_vec();
    if k.len() != kw.len() {
        return false;
    }
    let mut i: usize = 0;
    while i < k.len()
        invariant
            0 <= i <= k@.len(),
            k@.len() == kw@.len(),
            kw@ == keyword.spec_bytes(),
            forall|j: int| 0 <= j < i ==> k@[j] == kw@[j],
        decreases k@.len() - i,
    {
        if k[i] != kw[i] {
            return false;
        }
        i += 1;
    }
    proof {
        assert(k@ =~= keyword.spec_bytes());
    }
    true
}

/// Does the uppercase scheme prefix sit at offset `at`?
fn chain_prefix_at(bytes: &Vec<u8>, at: usize) -> (r: bool)
    requires
        at <= bytes@.len(),
    ensures
        r == (bytes@.len() - at >= 6 && bytes@.subrange(at as int, at as int + 6)
            == "CHAIN_".spec_bytes()),
{
    let prefix: Vec<u8> = "CHAIN_".as_bytes_vec();
    let n: usize = bytes.len();
    if n - at < 6 || prefix.len() != 6 {
        proof {
            if bytes@.len() - at >= 6 {
                assert(bytes@.subrange(at as int, at as int + 6).len() == 6);
            }
        }
        return false;
    }
    let mut i: usize = 0;
    while i < 6
        invariant
            0 <= i <= 6,
            at + 6 <= n,
            n == bytes@.len(),
            prefix@.len() == 6,
            prefix@ == "CHAIN_".spec_bytes(),
            forall|j: int| 0 <= j < i ==> bytes@[at + j] == prefix@[j],
        decreases 6 - i,
    {
        if bytes[at + i] != prefix[i] {
            proof {
                assert(bytes@.subrange(at as int, at as int + 6)[i as int] == bytes@[at + i]);
            }
            return false;
        }
        i += 1;
    }
    proof {
        assert(bytes@.subrange(at as int, at as int + 6) =~= "CHAIN_".spec_bytes());
    }
    true
}

impl ChainRef {
    /// Read a chain reference from a user-supplied name.
    pub fn parse(s: &str) -> (r: Result<Self, ()>)
        ensures
            r == spec_parse(s.spec_bytes()),
    {
        let bytes: Vec<u8> = s.as_bytes_vec();
        let n: usize = bytes.len();

        // drop every leading uppercase scheme prefix
        let mut start: usize = 0;
        proof {
            assert(bytes@.skip(0) =~= bytes@);
        }
        while chain_prefix_at(&bytes, start)
            invariant
                start <= n,
                n == bytes@.len(),
                strip_chain_prefix(bytes@.skip(start as int)) == strip_chain_prefix(bytes@),
            decreases bytes@.len() - start,
        {
            proof {
                assert(bytes@.skip(start as int).subrange(0, 6) =~= bytes@.subrange(
                    start as int,
                    start as int + 6,
                ));
                assert(bytes@.skip(start as int).skip(6) =~= bytes@.skip(start as int + 6));
            }
            start = start + 6;
        }
        proof {
            if bytes@.len() - start >= 6 {
                assert(bytes@.skip(start as int).subrange(0, 6) =~= bytes@.subrange(
                    start as int,
                    start as int + 6,
                ));
            }
            assert(strip_chain_prefix(bytes@.skip(start as int)) == bytes@.skip(start as int));
        }

        // canonical form: separators dropped, uppercase folded
        let mut k: Vec<u8> = Vec::new();
        let mut i: usize = start;
        while i < bytes.len()
            invariant
                start <= i <= n,
                n == bytes@.len(),
                canon_bytes(bytes@.skip(start as int)) == k@ + canon_bytes(bytes@.skip(i as int)),
            decreases bytes@.len() - i,
        {
            proof {
                assert(bytes@.skip(i as int).skip(1) =~= bytes@.skip(i as int + 1));
                assert(bytes@.skip(i as int)[0] == bytes@[i as int]);
            }
            let b = bytes[i];
            if b != 45 && b != 95 {
                let lowered = if 65 <= b && b <= 90 {
                    b + 32
                } else {
                    b
                };
                k.push(lowered);
            }
            i += 1;
        }
        proof {
            assert(bytes@.skip(bytes@.len() as int) =~= Seq::<u8>::empty());
            assert(canon_bytes(bytes@.skip(start as int)) =~= k@);
        }

        if keyword_eq(&k, "bitcoin") || keyword_eq(&k, "btc") || keyword_eq(&k, "1") {
            Ok(ChainRef::ChainBitcoin)
        } else if keyword_eq(&k, "testnetbitcoin") || keyword_eq(&k, "bitcointestnet")
            || keyword_eq(&k, "btctest") || keyword_eq(&k, "10003") {
            Ok(ChainRef::ChainTestnetBitcoin)
        } else if keyword_eq(&k, "ethereum") || keyword_eq(&k, "eth") || keyword_eq(&k, "100") {
            Ok(ChainRef::ChainEthereum)
        } else if keyword_eq(&k, "ethereumclassic") || keyword_eq(&k, "etc")
            || keyword_eq(&k, "101") {
            Ok(ChainRef::ChainEthereumClassic)
        } else if keyword_eq(&k, "sepolia") || keyword_eq(&k, "testnetsepolia")
            || keyword_eq(&k, "sepoliatestnet") || keyword_eq(&k, "10009") {
            Ok(ChainRef::ChainSepolia)
        } else {
            Err(())
        }
    }
}

impl core::str::FromStr for ChainRef {
    type Err = ();

    fn from_str(s: &str) -> Result<Self, ()> {
        ChainRef::parse(s)
    }
}

} // verus!
