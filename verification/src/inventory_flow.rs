//! The operations on inventory, as sequences of questions to the store.
//!
//! As with goods, each operation is a state machine whose rank falls with
//! every question. An insert first settles which good the lot belongs to,
//! then finds or creates the lot. An update works lot by lot, each in a
//! transaction of its own that covers the lot and its good.

use crate::datetime::Timestamp;
use crate::error::ErrorKind;
use crate::flow::{lemma_after_nothing, Flow, Outcome};
use crate::goods_flow::rolled_back;
use crate::goods_table::{good_views, CreateGoodRequest, UpdateGoodRequest};
use crate::inventory_table::{
    joined_views, CreateInventoryRequest, InventoryItemWithGoods, InventoryItemWithGoodsView,
    InventorySearchParams, UpdateInventoryRequest,
};
use crate::model::{
    first_index, first_match, has_goods_id, has_key, has_material_code, ReplyView, StoreModel,
};
use crate::store::{
    ask, failed, failure_of, finished, first_good, first_inventory, reply_failure, Reply, Request,
    Step,
};
use vstd::prelude::*;
use vstd::string::*;

verus! {

/// The inventory, seen from the side that decides. Its methods start the
/// operations; they ask nothing themselves.
#[derive(Clone, Copy, Debug)]
pub struct InventoryTable {}

/// A search for lots: one question.
#[derive(Debug)]
pub struct InventorySearch {
    pub params: InventorySearchParams,
}

/// A look for the lot with a key: one question.
#[derive(Clone, Copy, Debug, PartialEq, Eq, Structural)]
pub struct InventoryLookup {
    pub item_id: i32,
}

/// What is to be stocked, and whether its expiry date had passed when the
/// insert began.
#[derive(Clone, Copy, Debug, PartialEq, Eq, Structural)]
pub struct Lot {
    pub quantity: i32,
    pub expired_date: Option<Timestamp>,
    pub already_expired: bool,
}

/// The insert of a lot, between two questions.
#[derive(Debug)]
pub enum InventoryInsert {
    /// Asking whether the good with the given key exists.
    CheckingGood { goods_id: i32, lot: Lot },
    /// Asking for the key of the good with the given material code.
    FindingGood { material_code: String, lot: Lot },
    /// Creating the good that the draft describes.
    CreatingGood { good: CreateGoodRequest, lot: Lot },
    /// Looking for a lot of the good with the same expiry date.
    FindingItem { goods_id: i32, lot: Lot },
    /// Inserting the lot, none having been found.
    Inserting { goods_id: i32, lot: Lot },
    /// Looking again, the store having refused the insert because the key
    /// is taken.
    Refinding { goods_id: i32, lot: Lot },
    /// Reading the lot with its good.
    Loading { item_id: i32, created: bool, lot: Lot },
}

/// A lot with its good, whether this operation created it, and whether the
/// expiry date that was asked for had already passed.
#[derive(Debug)]
pub struct StockedItem {
    pub item: InventoryItemWithGoods,
    pub was_created: bool,
    pub already_expired: bool,
}

/// A patch on lots, taken apart: what changes the good, and what changes
/// the lot.
#[derive(Debug)]
pub struct ItemPatch {
    pub good: UpdateGoodRequest,
    pub quantity: Option<i32>,
    pub expired_date: Option<Timestamp>,
}

/// What is being done to the lot at hand while lots are updated.
#[derive(Clone, Copy, Debug, PartialEq, Eq, Structural)]
pub enum UpdatePhase {
    /// Opening the lot's transaction.
    Begin,
    /// Patching the lot's good.
    Good,
    /// Patching the lot.
    Item,
    /// Making both changes final.
    Commit,
    /// Reading the lot with its good.
    Load,
}

/// The update of lots, between two questions.
#[derive(Debug)]
pub enum InventoryUpdate {
    /// Selecting the lots to change.
    Searching { params: InventorySearchParams, patch: ItemPatch },
    /// At the lot `rows[next]`; those before it are done.
    Working { patch: ItemPatch, rows: Vec<InventoryItemWithGoods>, next: usize, phase: UpdatePhase },
    /// Giving up on the lot at hand: nothing is to remain of its
    /// transaction.
    RollingBack { kind: ErrorKind },
}

/// The delete of lots, between two questions.
#[derive(Debug)]
pub enum InventoryDelete {
    /// Selecting the lots to delete.
    Searching { params: InventorySearchParams },
    /// Deleting the lot `rows[next]`; those before it are deleted.
    Deleting { rows: Vec<InventoryItemWithGoods>, next: usize },
}

impl Flow for InventorySearch {
    type Output = Vec<InventoryItemWithGoods>;

    type OutputView = Seq<InventoryItemWithGoodsView>;

    open spec fn wf(&self) -> bool {
        true
    }

    open spec fn rank(&self) -> nat {
        0
    }

    /// What is asked.
    open spec fn request(&self) -> Request<'_> {
        Request::SearchInventory(&self.params)
    }

    /// The step that an answer leads to: the rows, or a failure.
    open spec fn next(self, reply: Reply) -> Step<InventorySearch, Vec<InventoryItemWithGoods>> {
        match reply {
            Reply::Inventory(rows) => finished(rows),
            _ => failed(reply_failure(reply)),
        }
    }

    /// What to ask the store.
    fn to_request(&self) -> (r: Request<'_>) {
        Request::SearchInventory(&self.params)
    }

    /// Takes the store's answer.
    fn resume(self, reply: Reply) -> (step: Step<InventorySearch, Vec<InventoryItemWithGoods>>) {
        match reply {
            Reply::Inventory(rows) => Step::Done { produced: Some(rows), failure: None },
            other => Step::Done { produced: None, failure: Some(failure_of(&other)) },
        }
    }

    open spec fn product(x: Vec<InventoryItemWithGoods>) -> Seq<InventoryItemWithGoodsView> {
        joined_views(x@)
    }

    open spec fn outcome(self, m: StoreModel) -> Outcome<Seq<InventoryItemWithGoodsView>> {
        Outcome::gives(m, m.tables.select_inventory(self.params))
    }

    proof fn lemma_step(self, m: StoreModel, reply: Reply) {
    }
}

impl Flow for InventoryLookup {
    type Output = InventoryItemWithGoods;

    type OutputView = InventoryItemWithGoodsView;

    open spec fn wf(&self) -> bool {
        true
    }

    open spec fn rank(&self) -> nat {
        0
    }

    /// What is asked.
    open spec fn request(&self) -> Request<'_> {
        Request::InventoryByItemId(self.item_id)
    }

    /// The step that an answer leads to: the lot, `NotFound` if there is
    /// none, or the failure of the store.
    open spec fn next(self, reply: Reply) -> Step<InventoryLookup, InventoryItemWithGoods> {
        match reply {
            Reply::Inventory(rows) => if rows@.len() > 0 {
                finished(rows@[0])
            } else {
                failed(ErrorKind::NotFound)
            },
            _ => failed(reply_failure(reply)),
        }
    }

    /// What to ask the store.
    fn to_request(&self) -> (r: Request<'_>) {
        Request::InventoryByItemId(self.item_id)
    }

    /// Takes the store's answer.
    fn resume(self, reply: Reply) -> (step: Step<InventoryLookup, InventoryItemWithGoods>) {
        match reply {
            Reply::Inventory(rows) => match first_inventory(rows) {
                Some(row) => Step::Done { produced: Some(row), failure: None },
                None => Step::Done { produced: None, failure: Some(ErrorKind::NotFound) },
            },
            other => Step::Done { produced: None, failure: Some(failure_of(&other)) },
        }
    }

    open spec fn product(x: InventoryItemWithGoods) -> InventoryItemWithGoodsView {
        x@
    }

    open spec fn outcome(self, m: StoreModel) -> Outcome<InventoryItemWithGoodsView> {
        let rows = m.tables.inventory_by_item_id(self.item_id);
        if rows.len() > 0 {
            Outcome::gives(m, rows[0])
        } else {
            Outcome::fails(m, ErrorKind::NotFound)
        }
    }

    proof fn lemma_step(self, m: StoreModel, reply: Reply) {
        match reply {
            Reply::Inventory(rows) => {
                assert(joined_views(rows@).len() == rows@.len());
                if rows@.len() > 0 {
                    assert(joined_views(rows@)[0] == rows@[0]@);
                }
            },
            _ => {},
        }
    }
}

impl Lot {
    /// The lot that a draft asks for, at the time `now`.
    pub open spec fn of(request: CreateInventoryRequest, now: Timestamp) -> Lot {
        Lot {
            quantity: request.quantity,
            expired_date: request.expired_date,
            already_expired: request.expired_date is Some && request.expired_date->0.before(now),
        }
    }
}

/// The good that a draft describes, under a given material code: the unit
/// codes and the description as the draft has them.
pub open spec fn described_good(request: CreateInventoryRequest, material_code: String)
    -> CreateGoodRequest {
    CreateGoodRequest {
        material_code,
        goods_name: request.goods_name->0,
        description: request.description,
        price: request.price->0,
        volumn_l: request.volumn_l->0,
        mass_g: request.mass_g->0,
        mass_base: request.mass_base,
        volumn_base: request.volumn_base,
    }
}

/// A stocked lot as plain data.
pub struct StockedItemView {
    pub item: InventoryItemWithGoodsView,
    pub was_created: bool,
    pub already_expired: bool,
}

/// What an insert comes to from the reading of the lot on: the lot with its
/// good, or `NotFound` where it is gone.
pub open spec fn loaded(m: StoreModel, item_id: i32, created: bool, lot: Lot) -> Outcome<
    StockedItemView,
> {
    let rows = m.tables.inventory_by_item_id(item_id);
    if rows.len() > 0 {
        Outcome::gives(
            m,
            StockedItemView {
                item: rows[0],
                was_created: created,
                already_expired: lot.already_expired,
            },
        )
    } else {
        Outcome::fails(m, ErrorKind::NotFound)
    }
}

/// What an insert comes to where the lot is looked for after the store
/// refused its key: the lot that has the key, not created, or a conflict.
pub open spec fn refound(m: StoreModel, goods_id: i32, lot: Lot) -> Outcome<StockedItemView> {
    let found = first_match(m.tables.inventory, has_key(goods_id, lot.expired_date));
    if found.len() > 0 {
        loaded(m, found[0].item_id, false, lot)
    } else {
        Outcome::fails(m, ErrorKind::Conflict)
    }
}

/// What an insert comes to from the insert statement on: the new lot; or,
/// where the store refuses the key, the lot that has it; or `NotFound`
/// where the good is gone.
pub open spec fn item_inserted(m: StoreModel, goods_id: i32, lot: Lot) -> Outcome<
    StockedItemView,
> {
    let (tables, reply) = m.tables.insert_item(goods_id, lot.quantity, lot.expired_date);
    let after = StoreModel { tables, saved: m.saved };
    match reply {
        ReplyView::Items(rows) => if rows.len() > 0 {
            loaded(after, rows[0].item_id, true, lot)
        } else {
            Outcome::fails(after, ErrorKind::StoreFailure)
        },
        ReplyView::Failed(kind) => if kind == ErrorKind::Conflict {
            refound(after, goods_id, lot)
        } else if kind == ErrorKind::ReferentialBlock {
            Outcome::fails(after, ErrorKind::NotFound)
        } else {
            Outcome::fails(after, kind)
        },
        _ => Outcome::fails(after, ErrorKind::StoreFailure),
    }
}

/// What an insert comes to once the good is settled: the lot of that good
/// with the same expiry date, not created, if there is one; else the new
/// lot.
pub open spec fn stocked(m: StoreModel, goods_id: i32, lot: Lot) -> Outcome<StockedItemView> {
    let found = first_match(m.tables.inventory, has_key(goods_id, lot.expired_date));
    if found.len() > 0 {
        loaded(m, found[0].item_id, false, lot)
    } else {
        item_inserted(m, goods_id, lot)
    }
}

impl Flow for InventoryInsert {
    type Output = StockedItem;

    type OutputView = StockedItemView;

    open spec fn wf(&self) -> bool {
        true
    }


    /// What is asked in this state.
    open spec fn request(&self) -> Request<'_> {
        match self {
            InventoryInsert::CheckingGood { goods_id, .. } => Request::GoodExists(*goods_id),
            InventoryInsert::FindingGood { material_code, .. } => Request::GoodsIdByMaterialCode(
                material_code,
            ),
            InventoryInsert::CreatingGood { good, .. } => Request::InsertGood(good),
            InventoryInsert::FindingItem { goods_id, lot } => Request::ItemByKey {
                goods_id: *goods_id,
                expired_date: lot.expired_date,
            },
            InventoryInsert::Inserting { goods_id, lot } => Request::InsertItem {
                goods_id: *goods_id,
                quantity: lot.quantity,
                expired_date: lot.expired_date,
            },
            InventoryInsert::Refinding { goods_id, lot } => Request::ItemByKey {
                goods_id: *goods_id,
                expired_date: lot.expired_date,
            },
            InventoryInsert::Loading { item_id, .. } => Request::InventoryByItemId(*item_id),
        }
    }

    /// How many questions can follow the one of this state.
    open spec fn rank(&self) -> nat {
        match self {
            InventoryInsert::CheckingGood { .. } => 4,
            InventoryInsert::FindingGood { .. } => 4,
            InventoryInsert::CreatingGood { .. } => 4,
            InventoryInsert::FindingItem { .. } => 3,
            InventoryInsert::Inserting { .. } => 2,
            InventoryInsert::Refinding { .. } => 1,
            InventoryInsert::Loading { .. } => 0,
        }
    }

    /// The step that an answer leads to.
    ///
    /// A good that was named and does not exist ends the insert with
    /// `NotFound`: the next way of settling the good is not tried. Once the
    /// good is settled, a lot of that good with the same expiry date, a
    /// missing date being a date of its own, is the result, and nothing is
    /// created. Where there is none, the lot is inserted. Where the store
    /// refuses the insert because the key was taken in between, the lot that
    /// took it is looked up and is the result; where it refuses because the
    /// good is gone, the insert ends with `NotFound`.
    open spec fn next(self, reply: Reply) -> Step<InventoryInsert, StockedItem> {
        match self {
            InventoryInsert::CheckingGood { goods_id, lot } => match reply {
                Reply::Flag(exists) => if exists {
                    ask(InventoryInsert::FindingItem { goods_id, lot })
                } else {
                    failed(ErrorKind::NotFound)
                },
                _ => failed(reply_failure(reply)),
            },
            InventoryInsert::FindingGood { material_code, lot } => match reply {
                Reply::Id(Some(goods_id)) => ask(InventoryInsert::FindingItem { goods_id, lot }),
                Reply::Id(None) => failed(ErrorKind::NotFound),
                _ => failed(reply_failure(reply)),
            },
            InventoryInsert::CreatingGood { good, lot } => match reply {
                Reply::Goods(rows) => if rows@.len() > 0 {
                    ask(InventoryInsert::FindingItem { goods_id: rows@[0].goods_id, lot })
                } else {
                    failed(ErrorKind::StoreFailure)
                },
                _ => failed(reply_failure(reply)),
            },
            InventoryInsert::FindingItem { goods_id, lot } => match reply {
                Reply::Items(rows) => if rows@.len() > 0 {
                    ask(InventoryInsert::Loading { item_id: rows@[0].item_id, created: false, lot })
                } else {
                    ask(InventoryInsert::Inserting { goods_id, lot })
                },
                _ => failed(reply_failure(reply)),
            },
            InventoryInsert::Inserting { goods_id, lot } => match reply {
                Reply::Items(rows) => if rows@.len() > 0 {
                    ask(InventoryInsert::Loading { item_id: rows@[0].item_id, created: true, lot })
                } else {
                    failed(ErrorKind::StoreFailure)
                },
                Reply::Failed(e) => if e.kind() == ErrorKind::Conflict {
                    ask(InventoryInsert::Refinding { goods_id, lot })
                } else if e.kind() == ErrorKind::ReferentialBlock {
                    failed(ErrorKind::NotFound)
                } else {
                    failed(e.kind())
                },
                _ => failed(ErrorKind::StoreFailure),
            },
            InventoryInsert::Refinding { goods_id, lot } => match reply {
                Reply::Items(rows) => if rows@.len() > 0 {
                    ask(InventoryInsert::Loading { item_id: rows@[0].item_id, created: false, lot })
                } else {
                    failed(ErrorKind::Conflict)
                },
                _ => failed(reply_failure(reply)),
            },
            InventoryInsert::Loading { item_id, created, lot } => match reply {
                Reply::Inventory(rows) => if rows@.len() > 0 {
                    finished(
                        StockedItem {
                            item: rows@[0],
                            was_created: created,
                            already_expired: lot.already_expired,
                        },
                    )
                } else {
                    failed(ErrorKind::NotFound)
                },
                _ => failed(reply_failure(reply)),
            },
        }
    }

    /// What to ask the store in this state.
    fn to_request(&self) -> (r: Request<'_>) {
        match self {
            InventoryInsert::CheckingGood { goods_id, .. } => Request::GoodExists(*goods_id),
            InventoryInsert::FindingGood { material_code, .. } => Request::GoodsIdByMaterialCode(
                material_code,
            ),
            InventoryInsert::CreatingGood { good, .. } => Request::InsertGood(good),
            InventoryInsert::FindingItem { goods_id, lot } => Request::ItemByKey {
                goods_id: *goods_id,
                expired_date: lot.expired_date,
            },
            InventoryInsert::Inserting { goods_id, lot } => Request::InsertItem {
                goods_id: *goods_id,
                quantity: lot.quantity,
                expired_date: lot.expired_date,
            },
            InventoryInsert::Refinding { goods_id, lot } => Request::ItemByKey {
                goods_id: *goods_id,
                expired_date: lot.expired_date,
            },
            InventoryInsert::Loading { item_id, .. } => Request::InventoryByItemId(*item_id),
        }
    }

    /// Takes the store's answer and says how the insert goes on.
    fn resume(self, reply: Reply) -> (step: Step<InventoryInsert, StockedItem>) {
        match self {
            InventoryInsert::CheckingGood { goods_id, lot } => match reply {
                Reply::Flag(exists) => {
                    if exists {
                        Step::Ask {
                            state: InventoryInsert::FindingItem { goods_id, lot },
                            produced: None,
                        }
                    } else {
                        Step::Done { produced: None, failure: Some(ErrorKind::NotFound) }
                    }
                },
                other => Step::Done { produced: None, failure: Some(failure_of(&other)) },
            },
            InventoryInsert::FindingGood { material_code, lot } => match reply {
                Reply::Id(Some(goods_id)) => Step::Ask {
                    state: InventoryInsert::FindingItem { goods_id, lot },
                    produced: None,
                },
                Reply::Id(None) => Step::Done {
                    produced: None,
                    failure: Some(ErrorKind::NotFound),
                },
                other => Step::Done { produced: None, failure: Some(failure_of(&other)) },
            },
            InventoryInsert::CreatingGood { good, lot } => match reply {
                Reply::Goods(rows) => match first_good(rows) {
                    Some(created) => Step::Ask {
                        state: InventoryInsert::FindingItem { goods_id: created.goods_id, lot },
                        produced: None,
                    },
                    None => Step::Done { produced: None, failure: Some(ErrorKind::StoreFailure) },
                },
                other => Step::Done { produced: None, failure: Some(failure_of(&other)) },
            },
            InventoryInsert::FindingItem { goods_id, lot } => match reply {
                Reply::Items(rows) => {
                    if rows.len() > 0 {
                        Step::Ask {
                            state: InventoryInsert::Loading {
                                item_id: rows[0].item_id,
                                created: false,
                                lot,
                            },
                            produced: None,
                        }
                    } else {
                        Step::Ask {
                            state: InventoryInsert::Inserting { goods_id, lot },
                            produced: None,
                        }
                    }
                },
                other => Step::Done { produced: None, failure: Some(failure_of(&other)) },
            },
            InventoryInsert::Inserting { goods_id, lot } => match reply {
                Reply::Items(rows) => {
                    if rows.len() > 0 {
                        Step::Ask {
                            state: InventoryInsert::Loading {
                                item_id: rows[0].item_id,
                                created: true,
                                lot,
                            },
                            produced: None,
                        }
                    } else {
                        Step::Done { produced: None, failure: Some(ErrorKind::StoreFailure) }
                    }
                },
                Reply::Failed(e) => {
                    let kind = e.classify();
                    match kind {
                        ErrorKind::Conflict => Step::Ask {
                            state: InventoryInsert::Refinding { goods_id, lot },
                            produced: None,
                        },
                        ErrorKind::ReferentialBlock => Step::Done {
                            produced: None,
                            failure: Some(ErrorKind::NotFound),
                        },
                        _ => Step::Done { produced: None, failure: Some(kind) },
                    }
                },
                _ => Step::Done { produced: None, failure: Some(ErrorKind::StoreFailure) },
            },
            InventoryInsert::Refinding { goods_id, lot } => match reply {
                Reply::Items(rows) => {
                    if rows.len() > 0 {
                        Step::Ask {
                            state: InventoryInsert::Loading {
                                item_id: rows[0].item_id,
                                created: false,
                                lot,
                            },
                            produced: None,
                        }
                    } else {
                        Step::Done { produced: None, failure: Some(ErrorKind::Conflict) }
                    }
                },
                other => Step::Done { produced: None, failure: Some(failure_of(&other)) },
            },
            InventoryInsert::Loading { item_id, created, lot } => match reply {
                Reply::Inventory(rows) => match first_inventory(rows) {
                    Some(item) => Step::Done {
                        produced: Some(
                            StockedItem {
                                item,
                                was_created: created,
                                already_expired: lot.already_expired,
                            },
                        ),
                        failure: None,
                    },
                    None => Step::Done { produced: None, failure: Some(ErrorKind::NotFound) },
                },
                other => Step::Done { produced: None, failure: Some(failure_of(&other)) },
            },
        }
    }

    open spec fn product(x: StockedItem) -> StockedItemView {
        StockedItemView { item: x.item@, was_created: x.was_created, already_expired: x.already_expired }
    }

    open spec fn outcome(self, m: StoreModel) -> Outcome<StockedItemView> {
        match self {
            InventoryInsert::CheckingGood { goods_id, lot } => if first_index(
                m.tables.goods,
                has_goods_id(goods_id),
                0,
            ) is Some {
                stocked(m, goods_id, lot)
            } else {
                Outcome::fails(m, ErrorKind::NotFound)
            },
            InventoryInsert::FindingGood { material_code, lot } => match first_index(
                m.tables.goods,
                has_material_code(material_code@),
                0,
            ) {
                Some(i) => stocked(m, m.tables.goods[i].goods_id, lot),
                None => Outcome::fails(m, ErrorKind::NotFound),
            },
            InventoryInsert::CreatingGood { good, lot } => {
                let (tables, reply) = m.tables.insert_good(good);
                let after = StoreModel { tables, saved: m.saved };
                match reply {
                    ReplyView::Goods(rows) => if rows.len() > 0 {
                        stocked(after, rows[0].goods_id, lot)
                    } else {
                        Outcome::fails(after, ErrorKind::StoreFailure)
                    },
                    ReplyView::Failed(kind) => Outcome::fails(after, kind),
                    _ => Outcome::fails(after, ErrorKind::StoreFailure),
                }
            },
            InventoryInsert::FindingItem { goods_id, lot } => stocked(m, goods_id, lot),
            InventoryInsert::Inserting { goods_id, lot } => item_inserted(m, goods_id, lot),
            InventoryInsert::Refinding { goods_id, lot } => refound(m, goods_id, lot),
            InventoryInsert::Loading { item_id, created, lot } => loaded(m, item_id, created, lot),
        }
    }

    proof fn lemma_step(self, m: StoreModel, reply: Reply) {
        let after = m.answer(self.request()).0;
        match reply {
            Reply::Goods(rows) => {
                assert(good_views(rows@).len() == rows@.len());
                if rows@.len() > 0 {
                    assert(good_views(rows@)[0] == rows@[0]@);
                }
            },
            Reply::Inventory(rows) => {
                assert(joined_views(rows@).len() == rows@.len());
                if rows@.len() > 0 {
                    assert(joined_views(rows@)[0] == rows@[0]@);
                }
            },
            _ => {},
        }
        match self {
            InventoryInsert::CheckingGood { goods_id, lot } => {
                lemma_after_nothing(stocked(after, goods_id, lot));
            },
            InventoryInsert::FindingGood { material_code, lot } => {
                match reply {
                    Reply::Id(Some(goods_id)) => {
                        lemma_after_nothing(stocked(after, goods_id, lot));
                    },
                    _ => {},
                }
            },
            InventoryInsert::CreatingGood { good, lot } => {
                match reply {
                    Reply::Goods(rows) => {
                        if rows@.len() > 0 {
                            lemma_after_nothing(stocked(after, rows@[0].goods_id, lot));
                        }
                    },
                    _ => {},
                }
            },
            InventoryInsert::FindingItem { goods_id, lot } => {
                match reply {
                    Reply::Items(rows) => {
                        if rows@.len() > 0 {
                            lemma_after_nothing(loaded(after, rows@[0].item_id, false, lot));
                        } else {
                            lemma_after_nothing(item_inserted(after, goods_id, lot));
                        }
                    },
                    _ => {},
                }
            },
            InventoryInsert::Inserting { goods_id, lot } => {
                match reply {
                    Reply::Items(rows) => {
                        if rows@.len() > 0 {
                            lemma_after_nothing(loaded(after, rows@[0].item_id, true, lot));
                        }
                    },
                    Reply::Failed(e) => {
                        lemma_after_nothing(refound(after, goods_id, lot));
                    },
                    _ => {},
                }
            },
            InventoryInsert::Refinding { goods_id, lot } => {
                match reply {
                    Reply::Items(rows) => {
                        if rows@.len() > 0 {
                            lemma_after_nothing(loaded(after, rows@[0].item_id, false, lot));
                        }
                    },
                    _ => {},
                }
            },
            InventoryInsert::Loading { item_id, created, lot } => {},
        }
    }
}

impl InventoryInsert {
    /// How the insert begins, where `blank` is the empty material code of a
    /// good that the draft describes. The good is settled by the first of
    /// three ways that the draft allows: its key, its material code, its
    /// full description. A draft that allows none ends with `NotFound`.
    pub open spec fn start(request: CreateInventoryRequest, now: Timestamp, blank: String) -> Step<
        InventoryInsert,
        StockedItem,
    > {
        let lot = Lot::of(request, now);
        if request.goods_id is Some {
            ask(InventoryInsert::CheckingGood { goods_id: request.goods_id->0, lot })
        } else if request.material_code is Some {
            ask(InventoryInsert::FindingGood { material_code: request.material_code->0, lot })
        } else if request.describes_good() {
            ask(InventoryInsert::CreatingGood { good: described_good(request, blank), lot })
        } else {
            failed(ErrorKind::NotFound)
        }
    }
}

impl ItemPatch {
    /// The patch changes the good.
    pub open spec fn touches_good(self) -> bool {
        !self.good.is_empty()
    }

    /// The patch changes the lot itself.
    pub open spec fn touches_item(self) -> bool {
        self.quantity is Some || self.expired_date is Some
    }

    /// The parts of a patch.
    pub open spec fn of(request: UpdateInventoryRequest) -> ItemPatch {
        ItemPatch {
            good: request.good_patch(),
            quantity: request.quantity,
            expired_date: request.expired_date,
        }
    }

    /// What follows the opening of a lot's transaction: the patch of the
    /// good where the patch has a field for it, else that of the lot.
    pub open spec fn first_phase(self) -> UpdatePhase {
        if self.touches_good() {
            UpdatePhase::Good
        } else {
            self.second_phase()
        }
    }

    /// What follows the patch of the good: the patch of the lot where the
    /// patch has a field for it, else the commit.
    pub open spec fn second_phase(self) -> UpdatePhase {
        if self.touches_item() {
            UpdatePhase::Item
        } else {
            UpdatePhase::Commit
        }
    }

    /// The phase after the opening of a lot's transaction.
    pub fn phase_after_begin(&self) -> (p: UpdatePhase)
        ensures
            p == self.first_phase(),
    {
        if !self.good.has_no_field() {
            UpdatePhase::Good
        } else {
            self.phase_after_good()
        }
    }

    /// The phase after the patch of the good.
    pub fn phase_after_good(&self) -> (p: UpdatePhase)
        ensures
            p == self.second_phase(),
    {
        if self.quantity.is_some() || self.expired_date.is_some() {
            UpdatePhase::Item
        } else {
            UpdatePhase::Commit
        }
    }
}

impl UpdatePhase {
    /// The place of a phase in the work on one lot.
    pub open spec fn index(self) -> nat {
        match self {
            UpdatePhase::Begin => 0,
            UpdatePhase::Good => 1,
            UpdatePhase::Item => 2,
            UpdatePhase::Commit => 3,
            UpdatePhase::Load => 4,
        }
    }
}

/// What the update of lots comes to from the lot `rows[next]` on, at a
/// phase of the work on that lot.
///
/// Each lot has a transaction of its own. A failure inside it rolls it back
/// and ends the update. After the commit the lot is read with its good and
/// produced, and the next lot begins.
pub open spec fn update_lots(
    m: StoreModel,
    patch: ItemPatch,
    rows: Seq<InventoryItemWithGoodsView>,
    next: int,
    phase: UpdatePhase,
) -> Outcome<InventoryItemWithGoodsView>
    decreases rows.len() - next, 4 - phase.index(),
{
    if next < 0 || next >= rows.len() {
        Outcome { store: m, produced: Seq::empty(), failure: None }
    } else {
        match phase {
            UpdatePhase::Begin => update_lots(
                m.answer(Request::Begin).0,
                patch,
                rows,
                next,
                patch.first_phase(),
            ),
            UpdatePhase::Good => {
                let (tables, reply) = m.tables.update_good(rows[next].item.goods_id, patch.good);
                let after = StoreModel { tables, saved: m.saved };
                match reply {
                    ReplyView::Goods(updated) => if updated.len() > 0 {
                        update_lots(after, patch, rows, next, patch.second_phase())
                    } else {
                        rolled_back(after, ErrorKind::NotFound)
                    },
                    ReplyView::Failed(kind) => rolled_back(after, kind),
                    _ => rolled_back(after, ErrorKind::StoreFailure),
                }
            },
            UpdatePhase::Item => {
                let (tables, reply) = m.tables.update_item(
                    rows[next].item.item_id,
                    patch.quantity,
                    patch.expired_date,
                );
                let after = StoreModel { tables, saved: m.saved };
                match reply {
                    ReplyView::Done => update_lots(after, patch, rows, next, UpdatePhase::Commit),
                    ReplyView::Failed(kind) => rolled_back(after, kind),
                    _ => rolled_back(after, ErrorKind::StoreFailure),
                }
            },
            UpdatePhase::Commit => update_lots(
                m.answer(Request::Commit).0,
                patch,
                rows,
                next,
                UpdatePhase::Load,
            ),
            UpdatePhase::Load => {
                let loaded = m.tables.inventory_by_item_id(rows[next].item.item_id);
                if loaded.len() > 0 {
                    update_lots(m, patch, rows, next + 1, UpdatePhase::Begin).after(
                        seq![loaded[0]],
                    )
                } else {
                    Outcome::fails(m, ErrorKind::NotFound)
                }
            },
        }
    }
}

impl Flow for InventoryUpdate {
    type Output = InventoryItemWithGoods;

    type OutputView = InventoryItemWithGoodsView;

    /// The state is one that the operation can be in: while it works, there
    /// is a lot at hand.
    open spec fn wf(&self) -> bool {
        match self {
            InventoryUpdate::Working { rows, next, .. } => *next < rows@.len(),
            _ => true,
        }
    }


    /// What is asked in this state.
    open spec fn request(&self) -> Request<'_> {
        match self {
            InventoryUpdate::Searching { params, .. } => Request::SearchInventory(params),
            InventoryUpdate::Working { patch, rows, next, phase } => match phase {
                UpdatePhase::Begin => Request::Begin,
                UpdatePhase::Good => Request::UpdateGood {
                    goods_id: rows@[*next as int].goods_id,
                    patch: &patch.good,
                },
                UpdatePhase::Item => Request::UpdateItem {
                    item_id: rows@[*next as int].item_id,
                    quantity: patch.quantity,
                    expired_date: patch.expired_date,
                },
                UpdatePhase::Commit => Request::Commit,
                UpdatePhase::Load => Request::InventoryByItemId(rows@[*next as int].item_id),
            },
            InventoryUpdate::RollingBack { .. } => Request::Rollback,
        }
    }

    /// A bound on the questions that can follow the one of this state.
    open spec fn rank(&self) -> nat {
        match self {
            InventoryUpdate::Searching { .. } => (5 * usize::MAX + 1) as nat,
            InventoryUpdate::Working { rows, next, phase, .. } => (5 * (rows@.len() - *next)
                - phase.index()) as nat,
            InventoryUpdate::RollingBack { .. } => 0,
        }
    }

    /// The step that an answer leads to.
    ///
    /// The lots that the filter selects are taken in the order of their
    /// keys. For each, one transaction covers the patch of its good, made
    /// only where the patch has a field of the good, and the patch of the
    /// lot, made only where it has a field of the lot. After the commit the
    /// lot is read with its good and produced. A failure inside the
    /// transaction rolls it back and ends the update; the lots produced
    /// before stay changed, the lot at hand is as it was.
    open spec fn next(self, reply: Reply) -> Step<InventoryUpdate, InventoryItemWithGoods> {
        match self {
            InventoryUpdate::Searching { params, patch } => match reply {
                Reply::Inventory(rows) => if rows@.len() > 0 {
                    ask(InventoryUpdate::Working { patch, rows, next: 0, phase: UpdatePhase::Begin })
                } else {
                    failed(ErrorKind::NotFound)
                },
                _ => failed(reply_failure(reply)),
            },
            InventoryUpdate::Working { patch, rows, next, phase } => match phase {
                UpdatePhase::Begin => match reply {
                    Reply::Done => ask(
                        InventoryUpdate::Working { patch, rows, next, phase: patch.first_phase() },
                    ),
                    _ => failed(reply_failure(reply)),
                },
                UpdatePhase::Good => match reply {
                    Reply::Goods(updated) => if updated@.len() > 0 {
                        ask(
                            InventoryUpdate::Working {
                                patch,
                                rows,
                                next,
                                phase: patch.second_phase(),
                            },
                        )
                    } else {
                        ask(InventoryUpdate::RollingBack { kind: ErrorKind::NotFound })
                    },
                    _ => ask(InventoryUpdate::RollingBack { kind: reply_failure(reply) }),
                },
                UpdatePhase::Item => match reply {
                    Reply::Done => ask(
                        InventoryUpdate::Working { patch, rows, next, phase: UpdatePhase::Commit },
                    ),
                    _ => ask(InventoryUpdate::RollingBack { kind: reply_failure(reply) }),
                },
                UpdatePhase::Commit => match reply {
                    Reply::Done => ask(
                        InventoryUpdate::Working { patch, rows, next, phase: UpdatePhase::Load },
                    ),
                    _ => failed(reply_failure(reply)),
                },
                UpdatePhase::Load => match reply {
                    Reply::Inventory(loaded) => if loaded@.len() == 0 {
                        failed(ErrorKind::NotFound)
                    } else if next + 1 < rows@.len() {
                        Step::Ask {
                            state: InventoryUpdate::Working {
                                patch,
                                rows,
                                next: (next + 1) as usize,
                                phase: UpdatePhase::Begin,
                            },
                            produced: Some(loaded@[0]),
                        }
                    } else {
                        finished(loaded@[0])
                    },
                    _ => failed(reply_failure(reply)),
                },
            },
            InventoryUpdate::RollingBack { kind } => failed(kind),
        }
    }

    /// What to ask the store in this state.
    fn to_request(&self) -> (r: Request<'_>) {
        match self {
            InventoryUpdate::Searching { params, .. } => Request::SearchInventory(params),
            InventoryUpdate::Working { patch, rows, next, phase } => match phase {
                UpdatePhase::Begin => Request::Begin,
                UpdatePhase::Good => Request::UpdateGood {
                    goods_id: rows[*next].goods_id,
                    patch: &patch.good,
                },
                UpdatePhase::Item => Request::UpdateItem {
                    item_id: rows[*next].item_id,
                    quantity: patch.quantity,
                    expired_date: patch.expired_date,
                },
                UpdatePhase::Commit => Request::Commit,
                UpdatePhase::Load => Request::InventoryByItemId(rows[*next].item_id),
            },
            InventoryUpdate::RollingBack { .. } => Request::Rollback,
        }
    }

    /// Takes the store's answer and says how the update goes on.
    fn resume(self, reply: Reply) -> (step: Step<InventoryUpdate, InventoryItemWithGoods>) {
        match self {
            InventoryUpdate::Searching { params, patch } => match reply {
                Reply::Inventory(rows) => {
                    if rows.len() > 0 {
                        Step::Ask {
                            state: InventoryUpdate::Working {
                                patch,
                                rows,
                                next: 0,
                                phase: UpdatePhase::Begin,
                            },
                            produced: None,
                        }
                    } else {
                        Step::Done { produced: None, failure: Some(ErrorKind::NotFound) }
                    }
                },
                other => Step::Done { produced: None, failure: Some(failure_of(&other)) },
            },
            InventoryUpdate::Working { patch, rows, next, phase } => match phase {
                UpdatePhase::Begin => match reply {
                    Reply::Done => {
                        let phase = patch.phase_after_begin();
                        Step::Ask {
                            state: InventoryUpdate::Working { patch, rows, next, phase },
                            produced: None,
                        }
                    },
                    other => Step::Done { produced: None, failure: Some(failure_of(&other)) },
                },
                UpdatePhase::Good => match reply {
                    Reply::Goods(updated) => {
                        if updated.len() > 0 {
                            let phase = patch.phase_after_good();
                            Step::Ask {
                                state: InventoryUpdate::Working { patch, rows, next, phase },
                                produced: None,
                            }
                        } else {
                            Step::Ask {
                                state: InventoryUpdate::RollingBack { kind: ErrorKind::NotFound },
                                produced: None,
                            }
                        }
                    },
                    other => Step::Ask {
                        state: InventoryUpdate::RollingBack { kind: failure_of(&other) },
                        produced: None,
                    },
                },
                UpdatePhase::Item => match reply {
                    Reply::Done => Step::Ask {
                        state: InventoryUpdate::Working {
                            patch,
                            rows,
                            next,
                            phase: UpdatePhase::Commit,
                        },
                        produced: None,
                    },
                    other => Step::Ask {
                        state: InventoryUpdate::RollingBack { kind: failure_of(&other) },
                        produced: None,
                    },
                },
                UpdatePhase::Commit => match reply {
                    Reply::Done => Step::Ask {
                        state: InventoryUpdate::Working {
                            patch,
                            rows,
                            next,
                            phase: UpdatePhase::Load,
                        },
                        produced: None,
                    },
                    other => Step::Done { produced: None, failure: Some(failure_of(&other)) },
                },
                UpdatePhase::Load => match reply {
                    Reply::Inventory(loaded) => match first_inventory(loaded) {
                        None => Step::Done { produced: None, failure: Some(ErrorKind::NotFound) },
                        Some(row) => {
                            let count = rows.len();
                            if next + 1 < count {
                                Step::Ask {
                                    state: InventoryUpdate::Working {
                                        patch,
                                        rows,
                                        next: next + 1,
                                        phase: UpdatePhase::Begin,
                                    },
                                    produced: Some(row),
                                }
                            } else {
                                Step::Done { produced: Some(row), failure: None }
                            }
                        },
                    },
                    other => Step::Done { produced: None, failure: Some(failure_of(&other)) },
                },
            },
            InventoryUpdate::RollingBack { kind } => Step::Done {
                produced: None,
                failure: Some(kind),
            },
        }
    }

    open spec fn product(x: InventoryItemWithGoods) -> InventoryItemWithGoodsView {
        x@
    }

    open spec fn outcome(self, m: StoreModel) -> Outcome<InventoryItemWithGoodsView> {
        match self {
            InventoryUpdate::Searching { params, patch } => {
                let rows = m.tables.select_inventory(params);
                if rows.len() > 0 {
                    update_lots(m, patch, rows, 0, UpdatePhase::Begin)
                } else {
                    Outcome::fails(m, ErrorKind::NotFound)
                }
            },
            InventoryUpdate::Working { patch, rows, next, phase } => update_lots(
                m,
                patch,
                joined_views(rows@),
                next as int,
                phase,
            ),
            InventoryUpdate::RollingBack { kind } => rolled_back(m, kind),
        }
    }

    proof fn lemma_step(self, m: StoreModel, reply: Reply) {
        let after = m.answer(self.request()).0;
        match self {
            InventoryUpdate::Searching { params, patch } => {
                match reply {
                    Reply::Inventory(rows) => {
                        assert(joined_views(rows@).len() == rows@.len());
                        lemma_after_nothing(
                            update_lots(m, patch, joined_views(rows@), 0, UpdatePhase::Begin),
                        );
                    },
                    _ => {},
                }
            },
            InventoryUpdate::Working { patch, rows, next, phase } => {
                let views = joined_views(rows@);
                assert(views.len() == rows@.len());
                assert(rows@.len() == rows.len());
                assert(views[next as int] == rows@[next as int]@);
                match phase {
                    UpdatePhase::Begin => {
                        lemma_after_nothing(
                            update_lots(after, patch, views, next as int, patch.first_phase()),
                        );
                    },
                    UpdatePhase::Good => {
                        lemma_after_nothing(
                            update_lots(after, patch, views, next as int, patch.second_phase()),
                        );
                        match reply {
                            Reply::Goods(updated) => {
                                assert(good_views(updated@).len() == updated@.len());
                                lemma_after_nothing(
                                    rolled_back::<InventoryItemWithGoodsView>(
                                        after,
                                        ErrorKind::NotFound,
                                    ),
                                );
                            },
                            Reply::Failed(e) => {
                                lemma_after_nothing(
                                    rolled_back::<InventoryItemWithGoodsView>(after, e.kind()),
                                );
                            },
                            _ => {},
                        }
                    },
                    UpdatePhase::Item => {
                        lemma_after_nothing(
                            update_lots(after, patch, views, next as int, UpdatePhase::Commit),
                        );
                        match reply {
                            Reply::Failed(e) => {
                                lemma_after_nothing(
                                    rolled_back::<InventoryItemWithGoodsView>(after, e.kind()),
                                );
                            },
                            _ => {},
                        }
                    },
                    UpdatePhase::Commit => {
                        lemma_after_nothing(
                            update_lots(after, patch, views, next as int, UpdatePhase::Load),
                        );
                    },
                    UpdatePhase::Load => {
                        match reply {
                            Reply::Inventory(loaded) => {
                                assert(joined_views(loaded@).len() == loaded@.len());
                                if loaded@.len() > 0 {
                                    assert(joined_views(loaded@)[0] == loaded@[0]@);
                                    let rest = update_lots(
                                        after,
                                        patch,
                                        views,
                                        next + 1,
                                        UpdatePhase::Begin,
                                    );
                                    if next + 1 >= rows@.len() {
                                        assert(rest.after(seq![loaded@[0]@]).produced =~= seq![
                                            loaded@[0]@,
                                        ]);
                                    }
                                }
                            },
                            _ => {},
                        }
                    },
                }
            },
            InventoryUpdate::RollingBack { kind } => {},
        }
    }
}

impl InventoryUpdate {
    /// How the update begins: a filter or a patch without any field is
    /// refused before the store is asked anything.
    pub open spec fn start(params: InventorySearchParams, request: UpdateInventoryRequest) -> Step<
        InventoryUpdate,
        InventoryItemWithGoods,
    > {
        if params.is_empty() || request.is_empty() {
            failed(ErrorKind::InvalidInput)
        } else {
            ask(InventoryUpdate::Searching { params, patch: ItemPatch::of(request) })
        }
    }
}

/// What the delete of lots comes to from the lot `rows[next]` on: each lot
/// is deleted and its key produced. No good is touched.
pub open spec fn delete_lots(m: StoreModel, rows: Seq<InventoryItemWithGoodsView>, next: int)
    -> Outcome<i32>
    decreases rows.len() - next,
{
    if next < 0 || next >= rows.len() {
        Outcome { store: m, produced: Seq::empty(), failure: None }
    } else {
        let after = StoreModel {
            tables: m.tables.delete_item(rows[next].item.item_id),
            saved: m.saved,
        };
        delete_lots(after, rows, next + 1).after(seq![rows[next].item.item_id])
    }
}

impl Flow for InventoryDelete {
    type Output = i32;

    type OutputView = i32;

    /// The state is one that the operation can be in: while it deletes,
    /// there is a lot at hand.
    open spec fn wf(&self) -> bool {
        match self {
            InventoryDelete::Searching { .. } => true,
            InventoryDelete::Deleting { rows, next } => *next < rows@.len(),
        }
    }


    /// What is asked in this state. No request of a delete of lots speaks of
    /// a good.
    open spec fn request(&self) -> Request<'_> {
        match self {
            InventoryDelete::Searching { params } => Request::SearchInventory(params),
            InventoryDelete::Deleting { rows, next } => Request::DeleteItem(
                rows@[*next as int].item_id,
            ),
        }
    }

    /// A bound on the questions that can follow the one of this state.
    open spec fn rank(&self) -> nat {
        match self {
            InventoryDelete::Searching { .. } => (usize::MAX + 1) as nat,
            InventoryDelete::Deleting { rows, next } => (rows@.len() - *next) as nat,
        }
    }

    /// The step that an answer leads to.
    ///
    /// The lots that the filter selects are deleted one by one, in the
    /// order of their keys, and the key of each is produced once the lot is
    /// gone. Where the store fails, the delete ends with the kind of that
    /// failure; the lots whose keys were produced before stay deleted.
    open spec fn next(self, reply: Reply) -> Step<InventoryDelete, i32> {
        match self {
            InventoryDelete::Searching { params } => match reply {
                Reply::Inventory(rows) => if rows@.len() > 0 {
                    ask(InventoryDelete::Deleting { rows, next: 0 })
                } else {
                    failed(ErrorKind::NotFound)
                },
                _ => failed(reply_failure(reply)),
            },
            InventoryDelete::Deleting { rows, next } => match reply {
                Reply::Done => if next + 1 < rows@.len() {
                    Step::Ask {
                        state: InventoryDelete::Deleting { rows, next: (next + 1) as usize },
                        produced: Some(rows@[next as int].item_id),
                    }
                } else {
                    finished(rows@[next as int].item_id)
                },
                _ => failed(reply_failure(reply)),
            },
        }
    }

    /// What to ask the store in this state.
    fn to_request(&self) -> (r: Request<'_>) {
        match self {
            InventoryDelete::Searching { params } => Request::SearchInventory(params),
            InventoryDelete::Deleting { rows, next } => Request::DeleteItem(rows[*next].item_id),
        }
    }

    /// Takes the store's answer and says how the delete goes on.
    fn resume(self, reply: Reply) -> (step: Step<InventoryDelete, i32>) {
        match self {
            InventoryDelete::Searching { params } => match reply {
                Reply::Inventory(rows) => {
                    if rows.len() > 0 {
                        Step::Ask {
                            state: InventoryDelete::Deleting { rows, next: 0 },
                            produced: None,
                        }
                    } else {
                        Step::Done { produced: None, failure: Some(ErrorKind::NotFound) }
                    }
                },
                other => Step::Done { produced: None, failure: Some(failure_of(&other)) },
            },
            InventoryDelete::Deleting { rows, next } => match reply {
                Reply::Done => {
                    let count = rows.len();
                    let item_id = rows[next].item_id;
                    if next + 1 < count {
                        Step::Ask {
                            state: InventoryDelete::Deleting { rows, next: next + 1 },
                            produced: Some(item_id),
                        }
                    } else {
                        Step::Done { produced: Some(item_id), failure: None }
                    }
                },
                other => Step::Done { produced: None, failure: Some(failure_of(&other)) },
            },
        }
    }

    open spec fn product(x: i32) -> i32 {
        x
    }

    open spec fn outcome(self, m: StoreModel) -> Outcome<i32> {
        match self {
            InventoryDelete::Searching { params } => {
                let rows = m.tables.select_inventory(params);
                if rows.len() > 0 {
                    delete_lots(m, rows, 0)
                } else {
                    Outcome::fails(m, ErrorKind::NotFound)
                }
            },
            InventoryDelete::Deleting { rows, next } => delete_lots(
                m,
                joined_views(rows@),
                next as int,
            ),
        }
    }

    proof fn lemma_step(self, m: StoreModel, reply: Reply) {
        let after = m.answer(self.request()).0;
        match self {
            InventoryDelete::Searching { params } => {
                match reply {
                    Reply::Inventory(rows) => {
                        assert(joined_views(rows@).len() == rows@.len());
                        lemma_after_nothing(delete_lots(m, joined_views(rows@), 0));
                    },
                    _ => {},
                }
            },
            InventoryDelete::Deleting { rows, next } => {
                let views = joined_views(rows@);
                assert(views.len() == rows@.len());
                assert(rows@.len() == rows.len());
                assert(views[next as int] == rows@[next as int]@);
                let rest = delete_lots(after, views, next + 1);
                if next + 1 >= rows@.len() {
                    assert(rest.after(seq![rows@[next as int].item_id]).produced =~= seq![
                        rows@[next as int].item_id,
                    ]);
                }
            },
        }
    }
}

impl InventoryDelete {
    /// How the delete begins: a filter without any field is refused before
    /// the store is asked anything.
    pub open spec fn start(params: InventorySearchParams) -> Step<InventoryDelete, i32> {
        if params.is_empty() {
            failed(ErrorKind::InvalidInput)
        } else {
            ask(InventoryDelete::Searching { params })
        }
    }
}

impl InventoryTable {
    /// The inventory.
    pub fn new() -> Self {
        InventoryTable {  }
    }

    /// Starts a search: the lots that the filter selects, by key.
    pub fn search(&self, params: InventorySearchParams) -> (step: Step<
        InventorySearch,
        Vec<InventoryItemWithGoods>,
    >)
        ensures
            step == ask::<InventorySearch, Vec<InventoryItemWithGoods>>(InventorySearch { params }),
    {
        Step::Ask { state: InventorySearch { params }, produced: None }
    }

    /// Starts the look for the lot with a key.
    pub fn get_by_item_id(&self, item_id: i32) -> (step: Step<
        InventoryLookup,
        InventoryItemWithGoods,
    >)
        ensures
            step == ask::<InventoryLookup, InventoryItemWithGoods>(InventoryLookup { item_id }),
    {
        Step::Ask { state: InventoryLookup { item_id }, produced: None }
    }

    /// Starts an insert at the time `now`: the lot of the same good with the
    /// same expiry date is the result if there is one, else the draft
    /// becomes a lot.
    pub fn insert(&self, request: CreateInventoryRequest, now: Timestamp) -> (step: Step<
        InventoryInsert,
        StockedItem,
    >)
        ensures
            exists|blank: String|
                blank@.len() == 0 && step == InventoryInsert::start(request, now, blank),
    {
        let already_expired = match request.expired_date {
            Some(date) => date.is_before(&now),
            None => false,
        };
        let lot = Lot {
            quantity: request.quantity,
            expired_date: request.expired_date,
            already_expired,
        };
        let blank = String::new();
        let described = request.has_full_description();
        let step = match request.goods_id {
            Some(goods_id) => Step::Ask {
                state: InventoryInsert::CheckingGood { goods_id, lot },
                produced: None,
            },
            None => match request.material_code {
                Some(material_code) => Step::Ask {
                    state: InventoryInsert::FindingGood { material_code, lot },
                    produced: None,
                },
                None => {
                    if described {
                        let good = CreateGoodRequest {
                            material_code: blank,
                            goods_name: request.goods_name.unwrap(),
                            description: request.description,
                            price: request.price.unwrap(),
                            volumn_l: request.volumn_l.unwrap(),
                            mass_g: request.mass_g.unwrap(),
                            mass_base: request.mass_base,
                            volumn_base: request.volumn_base,
                        };
                        Step::Ask {
                            state: InventoryInsert::CreatingGood { good, lot },
                            produced: None,
                        }
                    } else {
                        Step::Done { produced: None, failure: Some(ErrorKind::NotFound) }
                    }
                },
            },
        };
        assert(step == InventoryInsert::start(request, now, blank));
        step
    }

    /// Starts an update of the lots that a filter selects.
    pub fn update(&self, params: InventorySearchParams, update_request: UpdateInventoryRequest) -> (step:
        Step<InventoryUpdate, InventoryItemWithGoods>)
        ensures
            step == InventoryUpdate::start(params, update_request),
            step matches Step::Ask { state, .. } ==> state.wf(),
    {
        if params.has_no_field() || update_request.has_no_field() {
            Step::Done { produced: None, failure: Some(ErrorKind::InvalidInput) }
        } else {
            let (good, quantity, expired_date) = update_request.split();
            Step::Ask {
                state: InventoryUpdate::Searching {
                    params,
                    patch: ItemPatch { good, quantity, expired_date },
                },
                produced: None,
            }
        }
    }

    /// Starts a delete of the lots that a filter selects.
    pub fn delete(&self, params: InventorySearchParams) -> (step: Step<InventoryDelete, i32>)
        ensures
            step == InventoryDelete::start(params),
            step matches Step::Ask { state, .. } ==> state.wf(),
    {
        if params.has_no_field() {
            Step::Done { produced: None, failure: Some(ErrorKind::InvalidInput) }
        } else {
            Step::Ask { state: InventoryDelete::Searching { params }, produced: None }
        }
    }
}

} // verus!
