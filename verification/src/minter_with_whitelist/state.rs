use crate::minter::state::{MinterState, MinterView};
use vstd::prelude::*;

verus! {

/// What kind of asset a requirement names, and which one.
#[derive(Debug, PartialEq, Eq)]
pub enum AssetType {
    NativeToken { denom: String },
    CW20Token { cw20_address: String },
    CW721Token { cw721_address: String },
}

/// Mathematical value of an [`AssetType`].
pub enum AssetTypeView {
    NativeToken { denom: Seq<char> },
    CW20Token { cw20_address: Seq<char> },
    CW721Token { cw721_address: Seq<char> },
}

impl View for AssetType {
    type V = AssetTypeView;

    open spec fn view(&self) -> AssetTypeView {
        match self {
            AssetType::NativeToken { denom } => AssetTypeView::NativeToken { denom: denom@ },
            AssetType::CW20Token { cw20_address } => AssetTypeView::CW20Token {
                cw20_address: cw20_address@,
            },
            AssetType::CW721Token { cw721_address } => AssetTypeView::CW721Token {
                cw721_address: cw721_address@,
            },
        }
    }
}

impl Clone for AssetType {
    fn clone(&self) -> (res: Self)
        ensures
            res@ == self@,
    {
        match self {
            AssetType::NativeToken { denom } => AssetType::NativeToken { denom: denom.clone() },
            AssetType::CW20Token { cw20_address } => AssetType::CW20Token {
                cw20_address: cw20_address.clone(),
            },
            AssetType::CW721Token { cw721_address } => AssetType::CW721Token {
                cw721_address: cw721_address.clone(),
            },
        }
    }
}

impl AssetType {
    /// Whether `self` and `other` name the same asset: the same kind and the
    /// same denomination or contract address.
    pub fn same_asset(&self, other: &AssetType) -> (res: bool)
        ensures
            res == (self@ == other@),
    {
        match (self, other) {
            (
                AssetType::NativeToken { denom },
                AssetType::NativeToken { denom: other_denom },
            ) => *denom == *other_denom,
            (
                AssetType::CW20Token { cw20_address },
                AssetType::CW20Token { cw20_address: other_cw20_address },
            ) => *cw20_address == *other_cw20_address,
            (
                AssetType::CW721Token { cw721_address },
                AssetType::CW721Token { cw721_address: other_cw721_address },
            ) => *cw721_address == *other_cw721_address,
            _ => false,
        }
    }
}

/// A holding that a buyer may be asked for: an amount of a token, or a number
/// of tokens of a collection.
#[derive(Debug, PartialEq, Eq)]
pub struct Asset {
    pub asset_type: AssetType,
    pub amount: u128,
}

/// Mathematical value of an [`Asset`].
pub struct AssetView {
    pub asset_type: AssetTypeView,
    pub amount: u128,
}

impl View for Asset {
    type V = AssetView;

    open spec fn view(&self) -> AssetView {
        AssetView { asset_type: self.asset_type@, amount: self.amount }
    }
}

impl Clone for Asset {
    fn clone(&self) -> (res: Self)
        ensures
            res@ == self@,
    {
        Asset { asset_type: self.asset_type.clone(), amount: self.amount }
    }
}

/// How many of the listed assets a buyer must hold.
#[derive(Clone, Copy, Debug, PartialEq, Eq, Structural)]
pub enum Requirement {
    /// Every listed asset.
    All {  },
    /// At least this many of them.
    Any { at_least: u32 },
}

/// The whitelist: the assets looked at and how many of them are required.
#[derive(Debug, PartialEq, Eq)]
pub struct RequirementAssets {
    pub assets: Vec<Asset>,
    pub required: Requirement,
}

/// Mathematical value of a [`RequirementAssets`].
pub struct RequirementAssetsView {
    pub assets: Seq<AssetView>,
    pub required: Requirement,
}

impl View for RequirementAssets {
    type V = RequirementAssetsView;

    open spec fn view(&self) -> RequirementAssetsView {
        RequirementAssetsView {
            assets: self.assets@.map_values(|a: Asset| a@),
            required: self.required,
        }
    }
}

/// Index of the first asset of the sequence that names `asset_type`, or the
/// length of the sequence where none does.
pub open spec fn first_asset_of(assets: Seq<AssetView>, asset_type: AssetTypeView) -> int
    decreases assets.len(),
{
    if assets.len() == 0 {
        0
    } else if assets.first().asset_type == asset_type {
        0
    } else {
        1 + first_asset_of(assets.drop_first(), asset_type)
    }
}

/// The list after `asset` is set: the first entry that names the same asset
/// takes the new amount; where no entry does, `asset` is appended.
pub open spec fn with_asset(assets: Seq<AssetView>, asset: AssetView) -> Seq<AssetView> {
    let i = first_asset_of(assets, asset.asset_type);
    if i < assets.len() {
        assets.update(i, AssetView { asset_type: assets[i].asset_type, amount: asset.amount })
    } else {
        assets.push(asset)
    }
}

/// The list without the entries that name `asset_type`; the others keep
/// their order.
pub open spec fn without_asset(assets: Seq<AssetView>, asset_type: AssetTypeView) -> Seq<AssetView>
    decreases assets.len(),
{
    if assets.len() == 0 {
        assets
    } else if assets.last().asset_type == asset_type {
        without_asset(assets.drop_last(), asset_type)
    } else {
        without_asset(assets.drop_last(), asset_type).push(assets.last())
    }
}

/// The list after each of `assets` is set, in order.
pub open spec fn with_assets(list: Seq<AssetView>, assets: Seq<AssetView>) -> Seq<AssetView>
    decreases assets.len(),
{
    if assets.len() == 0 {
        list
    } else {
        with_asset(with_assets(list, assets.drop_last()), assets.last())
    }
}

/// The list without the entries that name one of `asset_types`.
pub open spec fn without_assets(list: Seq<AssetView>, asset_types: Seq<AssetTypeView>) -> Seq<
    AssetView,
>
    decreases asset_types.len(),
{
    if asset_types.len() == 0 {
        list
    } else {
        without_asset(without_assets(list, asset_types.drop_last()), asset_types.last())
    }
}

/// `first_asset_of` is the least index whose entry names `asset_type`.
pub proof fn lemma_first_asset_of(assets: Seq<AssetView>, asset_type: AssetTypeView)
    ensures
        0 <= first_asset_of(assets, asset_type) <= assets.len(),
        first_asset_of(assets, asset_type) < assets.len() ==> assets[first_asset_of(
            assets,
            asset_type,
        )].asset_type == asset_type,
        forall|k: int|
            0 <= k < first_asset_of(assets, asset_type) ==> (#[trigger] assets[k]).asset_type
                != asset_type,
    decreases assets.len(),
{
    if assets.len() > 0 && assets.first().asset_type != asset_type {
        let rest = assets.drop_first();
        lemma_first_asset_of(rest, asset_type);
        assert forall|k: int| 0 <= k < first_asset_of(assets, asset_type) implies (
        #[trigger] assets[k]).asset_type != asset_type by {
            if k > 0 {
                assert(rest[k - 1] == assets[k]);
            }
        }
    }
}

/// An index whose entry names `asset_type`, with no such entry before it, is
/// `first_asset_of`; so is the length, where no entry names it.
pub proof fn lemma_first_asset_of_is(assets: Seq<AssetView>, asset_type: AssetTypeView, i: int)
    requires
        0 <= i <= assets.len(),
        i < assets.len() ==> assets[i].asset_type == asset_type,
        forall|k: int| 0 <= k < i ==> (#[trigger] assets[k]).asset_type != asset_type,
    ensures
        first_asset_of(assets, asset_type) == i,
{
    lemma_first_asset_of(assets, asset_type);
    let f = first_asset_of(assets, asset_type);
    if f < i {
        assert(assets[f].asset_type != asset_type);
    }
}

impl RequirementAssets {
    /// Sets the required amount of `asset`. The first entry that names the
    /// same asset takes the new amount; where the list has no such entry,
    /// `asset` is appended.
    pub fn update_asset(&mut self, asset: Asset)
        ensures
            final(self)@.required == old(self)@.required,
            final(self)@.assets == with_asset(old(self)@.assets, asset@),
    {
        let ghost before = self@.assets;
        let mut i: usize = 0;
        while i < self.assets.len()
            invariant
                i <= self.assets.len(),
                before == old(self)@.assets,
                self@.assets == before,
                self.required == old(self).required,
                forall|k: int|
                    0 <= k < i ==> (#[trigger] before[k]).asset_type != asset@.asset_type,
            decreases self.assets.len() - i,
        {
            assert(before[i as int] == self.assets[i as int]@);
            if self.assets[i].asset_type.same_asset(&asset.asset_type) {
                proof {
                    lemma_first_asset_of_is(before, asset@.asset_type, i as int);
                }
                let mut entry = self.assets.remove(i);
                entry.amount = asset.amount;
                self.assets.insert(i, entry);
                assert(self@.assets =~= with_asset(before, asset@));
                return ;
            }
            i += 1;
        }
        proof {
            lemma_first_asset_of_is(before, asset@.asset_type, before.len() as int);
        }
        self.assets.push(asset);
        assert(self@.assets =~= with_asset(before, asset@));
    }

    /// Removes every entry that names `asset_type`. The other entries keep
    /// their order.
    pub fn remove_asset(&mut self, asset_type: AssetType)
        ensures
            final(self)@.required == old(self)@.required,
            final(self)@.assets == without_asset(old(self)@.assets, asset_type@),
    {
        let ghost before = self@.assets;
        let ghost mut done: int = 0;
        let mut i: usize = 0;
        proof {
            assert(before.take(0) =~= Seq::<AssetView>::empty());
            assert(self@.assets.take(0) =~= Seq::<AssetView>::empty());
            assert(self@.assets.skip(0) =~= before.skip(0));
        }
        while i < self.assets.len()
            invariant
                self.required == old(self).required,
                i <= self.assets.len(),
                0 <= done <= before.len(),
                self@.assets.take(i as int) == without_asset(before.take(done), asset_type@),
                self@.assets.skip(i as int) == before.skip(done),
            decreases self.assets.len() - i,
        {
            let ghost current = self@.assets;
            proof {
                assert(current.skip(i as int)[0] == before.skip(done)[0]);
                assert(current.skip(i as int).len() == before.skip(done).len());
                let next = before.take(done + 1);
                assert(next.drop_last() =~= before.take(done));
                assert(next.last() == before[done]);
            }
            if self.assets[i].asset_type.same_asset(&asset_type) {
                self.assets.remove(i);
                proof {
                    assert(self@.assets =~= current.remove(i as int));
                    assert(self@.assets.take(i as int) =~= current.take(i as int));
                    assert(self@.assets.skip(i as int) =~= current.skip(i as int).drop_first());
                    assert(before.skip(done + 1) =~= before.skip(done).drop_first());
                }
            } else {
                proof {
                    assert(current.take(i + 1) =~= current.take(i as int).push(current[i as int]));
                    assert(current.skip(i + 1) =~= current.skip(i as int).drop_first());
                    assert(before.skip(done + 1) =~= before.skip(done).drop_first());
                }
                i += 1;
            }
            proof {
                done = done + 1;
            }
        }
        proof {
            assert(self@.assets.skip(i as int).len() == 0);
            assert(before.take(done) =~= before);
            assert(self@.assets.take(i as int) =~= self@.assets);
        }
    }
}

/// Everything a whitelisting minter keeps between calls: the state of a
/// minter and the whitelist.
#[derive(Debug, PartialEq, Eq)]
pub struct WhitelistState {
    pub minter: MinterState,
    pub requirement_assets: RequirementAssets,
}

/// Mathematical value of a [`WhitelistState`].
pub struct WhitelistView {
    pub minter: MinterView,
    pub requirement_assets: RequirementAssetsView,
}

impl View for WhitelistState {
    type V = WhitelistView;

    open spec fn view(&self) -> WhitelistView {
        WhitelistView { minter: self.minter@, requirement_assets: self.requirement_assets@ }
    }
}

} // verus!
