use vstd::prelude::*;
use vstd::arithmetic::power2::pow2;
use zebra_chain::block::Height;
use zebra_chain::parameters::subsidy;
use zebra_chain::parameters::NetworkUpgrade;

use crate::block::Network;

verus! {

/// Heights below this one are in the slow-start period, whose subsidy the
/// coinbase check does not cover.
pub const SLOW_START_INTERVAL: u32 = 20_000;

/// The height at which Canopy, and with it the funding-stream era, activates.
pub open spec fn canopy_height(network: Network) -> u32 {
    match network {
        Network::Mainnet => 1_046_400,
        Network::Testnet => 1_028_500,
    }
}

/// `d` is one of 1, 2, 4, ..., 2^63.
pub open spec fn is_power_of_two(d: u64) -> bool {
    exists|e: nat| e < 64 && d as nat == #[trigger] pow2(e)
}

/// The halving divisor that zebra-chain computes for a height; `None` where it
/// does not fit a `u64`.
pub uninterp spec fn halving_divisor_of(network: Network, height: u32) -> Option<u64>;

/// The founders reward, in zatoshis, that zebra-chain computes for a height.
pub uninterp spec fn founders_reward_of(network: Network, height: u32) -> u64;

/// Relies on `NetworkUpgrade::activation_height` for Canopy, read from zebra-chain's
/// activation tables for Mainnet and the default Testnet, both of which list Canopy.
#[verifier::external_body]
pub(crate) fn canopy_activation_height(network: Network) -> (r: u32)
    ensures
        r == canopy_height(network),
{
    let network = match network {
        Network::Mainnet => zebra_chain::parameters::Network::Mainnet,
        Network::Testnet => zebra_chain::parameters::Network::new_default_testnet(),
    };
    NetworkUpgrade::Canopy.activation_height(&network).expect("Canopy activation height is known").0
}

/// Relies on `subsidy::halving_divisor`, which is `1u64.checked_shl(halving(height))`:
/// a power of two, or `None` once the shift passes 63 bits.
#[verifier::external_body]
pub(crate) fn halving_divisor(network: Network, height: u32) -> (r: Option<u64>)
    ensures
        r == halving_divisor_of(network, height),
        r matches Some(d) ==> is_power_of_two(d),
{
    let network = match network {
        Network::Mainnet => zebra_chain::parameters::Network::Mainnet,
        Network::Testnet => zebra_chain::parameters::Network::new_default_testnet(),
    };
    subsidy::halving_divisor(Height(height), &network)
}

/// Relies on `subsidy::founders_reward`: a non-negative amount that depends on the
/// network and the height alone. Its `div_exact(5)` does not panic here: on Mainnet
/// and the default Testnet every scheduled subsidy before the first halving is a
/// multiple of five.
#[verifier::external_body]
pub(crate) fn founders_reward(network: Network, height: u32) -> (r: u64)
    ensures
        r == founders_reward_of(network, height),
{
    let network = match network {
        Network::Mainnet => zebra_chain::parameters::Network::Mainnet,
        Network::Testnet => zebra_chain::parameters::Network::new_default_testnet(),
    };
    u64::from(subsidy::founders_reward(&network, Height(height)))
}

} // verus!
