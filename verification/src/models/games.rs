use vstd::prelude::*;
use crate::enums::platform_enum::{
    lemma_platform_name_round_trip, platform_from_name, platform_name, Platform,
};
use crate::enums::subscription_enum::{
    lemma_subscription_name_round_trip, subscription_from_name, subscription_name, SubscriptionType,
};
use crate::utils::id_generator::{generate_uuid, is_uuid_v4_text};
use crate::utils::text::without_hyphens;

verus! {

/// One physical copy of a game.
#[derive(Debug, Clone)]
pub struct GameItem {
    pub reference: Option<String>,
    pub barcode: String,
    pub platform: Platform,
    pub is_available: bool,
}

/// A game of the catalogue, with the tiers that unlock it and its copies.
#[derive(Debug, Clone)]
pub struct Game {
    pub reference: Option<String>,
    pub name: String,
    pub description: String,
    pub game_category: Vec<String>,
    pub subscription_type: Vec<SubscriptionType>,
    pub inventory: Option<Vec<GameItem>>,
}

/// The values stored for a game: its reference, and its tiers by name.
#[derive(Debug, Clone)]
pub struct GameRecord {
    pub reference: String,
    pub name: String,
    pub description: String,
    pub game_category: Vec<String>,
    pub subscription_type: Vec<String>,
}

/// The values stored for one copy: the game it belongs to, and its
/// platform by name.
#[derive(Debug, Clone)]
pub struct GameItemRecord {
    pub barcode: String,
    pub reference: String,
    pub platform: String,
    pub is_available: bool,
}

/// `rec` holds what is stored for game `g` under `reference`.
pub open spec fn is_record_of(rec: GameRecord, g: Game, reference: Seq<char>) -> bool {
    &&& rec.reference@ == reference
    &&& rec.name == g.name
    &&& rec.description == g.description
    &&& rec.game_category@ == g.game_category@
    &&& texts(rec.subscription_type@) == tier_names(g.subscription_type@)
}

/// `rec` holds what is stored for copy `item` of the game under `reference`.
pub open spec fn is_item_record_of(rec: GameItemRecord, item: GameItem, reference: Seq<char>) -> bool {
    &&& rec.barcode == item.barcode
    &&& rec.reference@ == reference
    &&& rec.platform@ == platform_name(item.platform)
    &&& rec.is_available == item.is_available
}

/// The copies of a game, none where it lists no inventory.
pub open spec fn inventory_items(inventory: Option<Vec<GameItem>>) -> Seq<GameItem> {
    match inventory {
        Some(items) => items@,
        None => Seq::empty(),
    }
}

/// The names under which a list of tiers is stored.
pub open spec fn tier_names(ts: Seq<SubscriptionType>) -> Seq<Seq<char>> {
    ts.map_values(|t: SubscriptionType| subscription_name(t))
}

/// The tiers that a list of stored names denotes.
pub open spec fn tiers_from_names(ns: Seq<Seq<char>>) -> Seq<SubscriptionType> {
    ns.map_values(|n: Seq<char>| subscription_from_name(n))
}

/// The texts held by a list of strings.
pub open spec fn texts(v: Seq<String>) -> Seq<Seq<char>> {
    v.map_values(|s: String| s@)
}

/// The prefix of every game reference.
pub open spec fn game_prefix() -> Seq<char> {
    "game_"@
}

impl GameItem {
    /// A copy as read back from storage: the platform is read from its name.
    pub fn from_row(
        reference: Option<String>,
        barcode: String,
        platform: &str,
        is_available: bool,
    ) -> (item: GameItem)
        ensures
            item.reference == reference,
            item.barcode == barcode,
            item.platform == platform_from_name(platform@),
            item.is_available == is_available,
    {
        GameItem { reference, barcode, platform: Platform::str_to_enum(platform), is_available }
    }
}

impl Game {
    /// A fresh game reference: `game_` followed by the 32 hexadecimal digits
    /// of a random UUID.
    pub fn new_reference() -> (r: String)
        ensures
            exists|u: Seq<char>| is_uuid_v4_text(u) && r@ == without_hyphens(game_prefix() + u),
    {
        proof {
            reveal_strlit("game_");
        }
        generate_uuid("game_")
    }

    /// The names under which this game's tiers are stored, in order.
    pub fn subscription_type_names(&self) -> (names: Vec<String>)
        ensures
            texts(names@) == tier_names(self.subscription_type@),
    {
        let mut names: Vec<String> = Vec::new();
        let n = self.subscription_type.len();
        let mut i: usize = 0;
        while i < n
            invariant
                n == self.subscription_type@.len(),
                i <= n,
                names@.len() == i,
                forall|k: int| 0 <= k < i ==> #[trigger] names@[k]@ == subscription_name(self.subscription_type@[k]),
            decreases n - i,
        {
            names.push(self.subscription_type[i].to_string());
            i = i + 1;
        }
        assert(texts(names@) =~= tier_names(self.subscription_type@));
        names
    }

    /// What is stored for this game under `reference`.
    pub fn record(&self, reference: &String) -> (rec: GameRecord)
        ensures
            is_record_of(rec, *self, reference@),
    {
        GameRecord {
            reference: reference.clone(),
            name: self.name.clone(),
            description: self.description.clone(),
            game_category: self.game_category.clone(),
            subscription_type: self.subscription_type_names(),
        }
    }

    /// What is stored for each copy of this game under `reference`, in the
    /// order of the inventory; nothing where the game lists no inventory.
    pub fn item_records(&self, reference: &String) -> (recs: Vec<GameItemRecord>)
        ensures
            recs@.len() == inventory_items(self.inventory).len(),
            forall|k: int|
                0 <= k < recs@.len() ==> is_item_record_of(
                    #[trigger] recs@[k],
                    inventory_items(self.inventory)[k],
                    reference@,
                ),
    {
        let mut recs: Vec<GameItemRecord> = Vec::new();
        match &self.inventory {
            None => {},
            Some(items) => {
                let n = items.len();
                let mut i: usize = 0;
                while i < n
                    invariant
                        self.inventory == Some(*items),
                        n == items@.len(),
                        i <= n,
                        recs@.len() == i,
                        forall|k: int|
                            0 <= k < i ==> is_item_record_of(#[trigger] recs@[k], items@[k], reference@),
                    decreases n - i,
                {
                    let item = &items[i];
                    recs.push(
                        GameItemRecord {
                            barcode: item.barcode.clone(),
                            reference: reference.clone(),
                            platform: item.platform.to_string(),
                            is_available: item.is_available,
                        },
                    );
                    i = i + 1;
                }
            },
        }
        recs
    }

    /// What editing this game stores: its record and those of its copies,
    /// all under the game's own reference; `None` where the game has no
    /// reference, which cannot be edited.
    pub fn edit_records(&self) -> (r: Option<(GameRecord, Vec<GameItemRecord>)>)
        ensures
            r is None <==> self.reference is None,
            r matches Some((rec, recs)) ==> {
                &&& is_record_of(rec, *self, self.reference->Some_0@)
                &&& recs@.len() == inventory_items(self.inventory).len()
                &&& forall|k: int|
                    0 <= k < recs@.len() ==> is_item_record_of(
                        #[trigger] recs@[k],
                        inventory_items(self.inventory)[k],
                        self.reference->Some_0@,
                    )
            },
    {
        match &self.reference {
            None => None,
            Some(reference) => Some((self.record(reference), self.item_records(reference))),
        }
    }

    /// The tiers that stored names denote, in order; an unknown name gives
    /// `InvalidSubscription`.
    pub fn subscription_types_from_names(names: &Vec<String>) -> (ts: Vec<SubscriptionType>)
        ensures
            ts@ == tiers_from_names(texts(names@)),
    {
        let mut ts: Vec<SubscriptionType> = Vec::new();
        let n = names.len();
        let mut i: usize = 0;
        while i < n
            invariant
                n == names@.len(),
                i <= n,
                ts@.len() == i,
                forall|k: int| 0 <= k < i ==> #[trigger] ts@[k] == subscription_from_name(names@[k]@),
            decreases n - i,
        {
            ts.push(SubscriptionType::str_to_enum(names[i].as_str()));
            i = i + 1;
        }
        assert(ts@ =~= tiers_from_names(texts(names@)));
        ts
    }

    /// A game as read back from storage: its tiers are read from their names.
    pub fn from_row(
        reference: Option<String>,
        name: String,
        description: String,
        game_category: Vec<String>,
        subscription_names: &Vec<String>,
        inventory: Option<Vec<GameItem>>,
    ) -> (g: Game)
        ensures
            g.reference == reference,
            g.name == name,
            g.description == description,
            g.game_category == game_category,
            g.subscription_type@ == tiers_from_names(texts(subscription_names@)),
            g.inventory == inventory,
    {
        Game {
            reference,
            name,
            description,
            game_category,
            subscription_type: Self::subscription_types_from_names(subscription_names),
            inventory,
        }
    }

    /// The inventory of a game in the full listing. `column` is `None` where
    /// the stored inventory is absent, `Some(None)` where it does not read as
    /// a list of copies, and `Some(Some(items))` where it does. An unreadable
    /// inventory is listed as empty.
    pub fn listing_inventory(column: Option<Option<Vec<GameItem>>>) -> (inv: Option<Vec<GameItem>>)
        ensures
            column is None ==> inv is None,
            column matches Some(None) ==> inv matches Some(v) && v@.len() == 0,
            column matches Some(Some(items)) ==> inv == Some(items),
    {
        match column {
            None => None,
            Some(None) => Some(Vec::new()),
            Some(Some(items)) => Some(items),
        }
    }

    /// The inventory of a game looked up by reference, from `column` as in
    /// `listing_inventory`. An unreadable inventory is dropped.
    pub fn lookup_inventory(column: Option<Option<Vec<GameItem>>>) -> (inv: Option<Vec<GameItem>>)
        ensures
            inv == (match column {
                Some(Some(items)) => Some(items),
                _ => None,
            }),
    {
        match column {
            Some(Some(items)) => Some(items),
            _ => None,
        }
    }
}

/// Tiers written under their names and read back are the same tiers.
pub proof fn lemma_tiers_round_trip(ts: Seq<SubscriptionType>)
    ensures
        tiers_from_names(tier_names(ts)) == ts,
{
    assert forall|i: int| 0 <= i < ts.len() implies #[trigger] tiers_from_names(tier_names(ts))[i] == ts[i] by {
        lemma_subscription_name_round_trip(ts[i]);
    }
    assert(tiers_from_names(tier_names(ts)) =~= ts);
}

/// What is stored for a game, read back, gives the game's own tiers.
pub proof fn lemma_game_record_reads_back(rec: GameRecord, g: Game, reference: Seq<char>)
    requires
        is_record_of(rec, g, reference),
    ensures
        tiers_from_names(texts(rec.subscription_type@)) == g.subscription_type@,
{
    lemma_tiers_round_trip(g.subscription_type@);
}

/// What is stored for a copy, read back, gives the copy's own platform.
pub proof fn lemma_item_record_reads_back(rec: GameItemRecord, item: GameItem, reference: Seq<char>)
    requires
        is_item_record_of(rec, item, reference),
    ensures
        platform_from_name(rec.platform@) == item.platform,
{
    lemma_platform_name_round_trip(item.platform);
}

} // verus!
