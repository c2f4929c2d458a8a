//! Selection of the event kinds a caller wants to receive.
use vstd::prelude::*;
use crate::events::DexEvent;

verus! {

/// The kinds of event a subscriber can select.
#[derive(Clone, Copy, Debug, PartialEq, Eq, Hash, Structural)]
pub enum EventType {
    TokenAccount,
    TokenInfo,
    NonceAccount,
    AccountPumpFunGlobal,
    AccountPumpFunBondingCurve,
    AccountPumpFunFeeConfig,
    AccountPumpFunSharingConfig,
    AccountPumpFunGlobalVolumeAccumulator,
    AccountPumpFunUserVolumeAccumulator,
    AccountPumpSwapGlobalConfig,
    AccountPumpSwapPool,
    AccountRaydiumClmmAmmConfig,
    AccountRaydiumClmmPoolState,
    AccountRaydiumClmmTickArrayState,
    AccountRaydiumCpmmAmmConfig,
    AccountRaydiumCpmmPoolState,
    AccountOrcaWhirlpool,
    AccountOrcaPosition,
    AccountOrcaTickArray,
    AccountOrcaFeeTier,
    AccountOrcaWhirlpoolsConfig,
    PumpFunCreate,
    PumpFunTrade,
    PumpFunBuy,
    PumpFunSell,
    PumpFunBuyExactSolIn,
    PumpFunMigrate,
    PumpFunMigrateBondingCurveCreator,
}

/// The kind of event that `e` is.
pub open spec fn event_type_of(e: DexEvent) -> EventType {
    match e {
        DexEvent::NonceAccount(_) => EventType::NonceAccount,
        DexEvent::PumpSwapGlobalConfigAccount(_) => EventType::AccountPumpSwapGlobalConfig,
        DexEvent::PumpSwapPoolAccount(_) => EventType::AccountPumpSwapPool,
        DexEvent::PumpFunFeeConfigAccount(_) => EventType::AccountPumpFunFeeConfig,
        DexEvent::PumpFunSharingConfigAccount(_) => EventType::AccountPumpFunSharingConfig,
        DexEvent::PumpFunGlobalVolumeAccumulatorAccount(
            _,
        ) => EventType::AccountPumpFunGlobalVolumeAccumulator,
        DexEvent::PumpFunUserVolumeAccumulatorAccount(
            _,
        ) => EventType::AccountPumpFunUserVolumeAccumulator,
        DexEvent::PumpFunBondingCurveAccount(_) => EventType::AccountPumpFunBondingCurve,
        DexEvent::PumpFunGlobalAccount(_) => EventType::AccountPumpFunGlobal,
        DexEvent::PumpFunCreate(_) => EventType::PumpFunCreate,
        DexEvent::PumpFunTrade(_) => EventType::PumpFunTrade,
        DexEvent::PumpFunBuy(_) => EventType::PumpFunBuy,
        DexEvent::PumpFunSell(_) => EventType::PumpFunSell,
        DexEvent::PumpFunBuyExactSolIn(_) => EventType::PumpFunBuyExactSolIn,
        DexEvent::PumpFunMigrate(_) => EventType::PumpFunMigrate,
        DexEvent::PumpFunMigrateBondingCurveCreator(
            _,
        ) => EventType::PumpFunMigrateBondingCurveCreator,
    }
}

impl DexEvent {
    /// The kind of this event.
    pub fn event_type(&self) -> (r: EventType)
        ensures
            r == event_type_of(*self),
    {
        match self {
            DexEvent::NonceAccount(_) => EventType::NonceAccount,
            DexEvent::PumpSwapGlobalConfigAccount(_) => EventType::AccountPumpSwapGlobalConfig,
            DexEvent::PumpSwapPoolAccount(_) => EventType::AccountPumpSwapPool,
            DexEvent::PumpFunFeeConfigAccount(_) => EventType::AccountPumpFunFeeConfig,
            DexEvent::PumpFunSharingConfigAccount(_) => EventType::AccountPumpFunSharingConfig,
            DexEvent::PumpFunGlobalVolumeAccumulatorAccount(
                _,
            ) => EventType::AccountPumpFunGlobalVolumeAccumulator,
            DexEvent::PumpFunUserVolumeAccumulatorAccount(
                _,
            ) => EventType::AccountPumpFunUserVolumeAccumulator,
            DexEvent::PumpFunBondingCurveAccount(_) => EventType::AccountPumpFunBondingCurve,
            DexEvent::PumpFunGlobalAccount(_) => EventType::AccountPumpFunGlobal,
            DexEvent::PumpFunCreate(_) => EventType::PumpFunCreate,
            DexEvent::PumpFunTrade(_) => EventType::PumpFunTrade,
            DexEvent::PumpFunBuy(_) => EventType::PumpFunBuy,
            DexEvent::PumpFunSell(_) => EventType::PumpFunSell,
            DexEvent::PumpFunBuyExactSolIn(_) => EventType::PumpFunBuyExactSolIn,
            DexEvent::PumpFunMigrate(_) => EventType::PumpFunMigrate,
            DexEvent::PumpFunMigrateBondingCurveCreator(
                _,
            ) => EventType::PumpFunMigrateBondingCurveCreator,
        }
    }
}

/// Whether `t` occurs in `types`.
fn contains_type(types: &Vec<EventType>, t: EventType) -> (r: bool)
    ensures
        r == types@.contains(t),
{
    let mut i: usize = 0;
    while i < types.len()
        invariant
            0 <= i <= types@.len(),
            forall|j: int| 0 <= j < i ==> types@[j] != t,
        decreases types@.len() - i,
    {
        if types[i] == t {
            assert(types@[i as int] == t);
            return true;
        }
        i = i + 1;
    }
    false
}

/// Which event kinds to keep: only those listed in `include_only` when it is
/// set, otherwise all but those listed in `exclude_types`.
#[derive(Clone, Debug)]
pub struct EventTypeFilter {
    pub include_only: Option<Vec<EventType>>,
    pub exclude_types: Option<Vec<EventType>>,
}

impl EventTypeFilter {
    /// The filter admits events of kind `t`.
    pub open spec fn admits(&self, t: EventType) -> bool {
        match self.include_only {
            Some(v) => v@.contains(t),
            None => match self.exclude_types {
                Some(v) => !v@.contains(t),
                None => true,
            },
        }
    }

    /// A filter that keeps only the listed kinds.
    pub fn include_only(types: Vec<EventType>) -> (r: EventTypeFilter)
        ensures
            r.include_only matches Some(v) && v@ == types@,
            r.exclude_types is None,
    {
        EventTypeFilter { include_only: Some(types), exclude_types: None }
    }

    /// A filter that keeps everything but the listed kinds.
    pub fn exclude_types(types: Vec<EventType>) -> (r: EventTypeFilter)
        ensures
            r.include_only is None,
            r.exclude_types matches Some(v) && v@ == types@,
    {
        EventTypeFilter { include_only: None, exclude_types: Some(types) }
    }

    /// Whether events of kind `t` pass the filter.
    pub fn should_include(&self, t: EventType) -> (r: bool)
        ensures
            r == self.admits(t),
    {
        match &self.include_only {
            Some(v) => contains_type(v, t),
            None => match &self.exclude_types {
                Some(v) => !contains_type(v, t),
                None => true,
            },
        }
    }

    /// Whether `event` passes the filter.
    pub fn should_include_dex_event(&self, event: &DexEvent) -> (r: bool)
        ensures
            r == self.admits(event_type_of(*event)),
    {
        self.should_include(event.event_type())
    }
}

} // verus!
