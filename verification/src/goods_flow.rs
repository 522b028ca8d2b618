//! The operations on goods, as sequences of questions to the store.
//!
//! Each operation is a small state machine. Its state says what to ask; the
//! store's answer leads to the next state or to the end. Every operation
//! ends after finitely many questions: its rank falls with each one.

use crate::error::ErrorKind;
use crate::flow::{lemma_after_nothing, Flow, Outcome};
use crate::goods_table::{
    good_views, CreateGoodRequest, Good, GoodView, GoodsSearchParams, UpdateGoodRequest,
};
use crate::model::{
    count_of, first_match, has_goods_id, has_material_code, refers_to, ReplyView, StoreModel,
};
use crate::store::{
    ask, failed, failure_of, finished, first_good, reply_failure, Reply, Request, Step,
};
use vstd::prelude::*;

verus! {

/// The goods, seen from the side that decides. Its methods start the
/// operations; they ask nothing themselves.
#[derive(Clone, Copy, Debug)]
pub struct GoodsTable {}

/// A search for goods: one question.
#[derive(Debug)]
pub struct GoodsSearch {
    pub params: GoodsSearchParams,
}

/// A look for one good: one question.
#[derive(Debug)]
pub enum GoodLookup {
    ById(i32),
    ByMaterialCode(String),
}

/// The insert of a good, between two questions.
#[derive(Debug)]
pub enum GoodsInsert {
    /// Looking for a good with the draft's material code.
    Lookup { draft: CreateGoodRequest },
    /// Inserting, none having been found.
    Insert { draft: CreateGoodRequest },
    /// Looking again, the store having refused the insert because the code
    /// is taken.
    Relookup { draft: CreateGoodRequest },
}

/// A good, and whether this operation created it.
#[derive(Debug)]
pub struct InsertedGood {
    pub good: Good,
    pub created: bool,
}

/// The update of goods, between two questions.
#[derive(Debug)]
pub enum GoodsUpdate {
    /// Selecting the goods to change.
    Searching { params: GoodsSearchParams, patch: UpdateGoodRequest },
    /// Patching the good `rows[next]`; those before it are done.
    Updating { patch: UpdateGoodRequest, rows: Vec<Good>, next: usize },
}

/// What is being done to the good at hand while goods are deleted.
#[derive(Clone, Copy, Debug, PartialEq, Eq, Structural)]
pub enum DeletePhase {
    /// Counting the lots that refer to it.
    Count,
    /// Deleting it, no lot referring to it.
    Delete,
}

/// The delete of goods, between two questions. All of it is one
/// transaction: either every selected good goes, or none.
#[derive(Debug)]
pub enum GoodsDelete {
    /// Opening the transaction.
    Beginning { params: GoodsSearchParams },
    /// Selecting the goods to delete.
    Searching { params: GoodsSearchParams },
    /// At the good `rows[next]`; those before it are deleted.
    Working { rows: Vec<Good>, next: usize, phase: DeletePhase },
    /// Every good is deleted; making it final.
    Committing { rows: Vec<Good> },
    /// Giving up: nothing is to remain of what was done.
    RollingBack { kind: ErrorKind },
}

impl Flow for GoodsSearch {
    type Output = Vec<Good>;

    type OutputView = Seq<GoodView>;

    open spec fn wf(&self) -> bool {
        true
    }

    open spec fn rank(&self) -> nat {
        0
    }

    /// What is asked.
    open spec fn request(&self) -> Request<'_> {
        Request::SearchGoods(&self.params)
    }

    /// The step that an answer leads to: the rows, or a failure.
    open spec fn next(self, reply: Reply) -> Step<GoodsSearch, Vec<Good>> {
        match reply {
            Reply::Goods(rows) => finished(rows),
            _ => failed(reply_failure(reply)),
        }
    }

    /// What to ask the store.
    fn to_request(&self) -> (r: Request<'_>) {
        Request::SearchGoods(&self.params)
    }

    /// Takes the store's answer.
    fn resume(self, reply: Reply) -> (step: Step<GoodsSearch, Vec<Good>>) {
        match reply {
            Reply::Goods(rows) => Step::Done { produced: Some(rows), failure: None },
            other => Step::Done { produced: None, failure: Some(failure_of(&other)) },
        }
    }

    open spec fn product(x: Vec<Good>) -> Seq<GoodView> {
        good_views(x@)
    }

    open spec fn outcome(self, m: StoreModel) -> Outcome<Seq<GoodView>> {
        Outcome::gives(m, m.tables.select_goods(self.params))
    }

    proof fn lemma_step(self, m: StoreModel, reply: Reply) {
    }
}

impl Flow for GoodLookup {
    type Output = Good;

    type OutputView = GoodView;

    open spec fn wf(&self) -> bool {
        true
    }

    open spec fn rank(&self) -> nat {
        0
    }

    /// What is asked.
    open spec fn request(&self) -> Request<'_> {
        match self {
            GoodLookup::ById(id) => Request::GoodById(*id),
            GoodLookup::ByMaterialCode(code) => Request::GoodByMaterialCode(code),
        }
    }

    /// The step that an answer leads to: the good if there is one, nothing
    /// if there is none, or a failure.
    open spec fn next(self, reply: Reply) -> Step<GoodLookup, Good> {
        match reply {
            Reply::Goods(rows) => if rows@.len() > 0 {
                finished(rows@[0])
            } else {
                Step::Done { produced: None, failure: None }
            },
            _ => failed(reply_failure(reply)),
        }
    }

    /// What to ask the store.
    fn to_request(&self) -> (r: Request<'_>) {
        match self {
            GoodLookup::ById(id) => Request::GoodById(*id),
            GoodLookup::ByMaterialCode(code) => Request::GoodByMaterialCode(code),
        }
    }

    /// Takes the store's answer.
    fn resume(self, reply: Reply) -> (step: Step<GoodLookup, Good>) {
        match reply {
            Reply::Goods(rows) => Step::Done { produced: first_good(rows), failure: None },
            other => Step::Done { produced: None, failure: Some(failure_of(&other)) },
        }
    }

    open spec fn product(x: Good) -> GoodView {
        x@
    }

    open spec fn outcome(self, m: StoreModel) -> Outcome<GoodView> {
        Outcome {
            store: m,
            produced: match self {
                GoodLookup::ById(id) => first_match(m.tables.goods, has_goods_id(id)),
                GoodLookup::ByMaterialCode(code) => first_match(
                    m.tables.goods,
                    has_material_code(code@),
                ),
            },
            failure: None,
        }
    }

    proof fn lemma_step(self, m: StoreModel, reply: Reply) {
        match reply {
            Reply::Goods(rows) => {
                if rows@.len() > 0 {
                    assert(good_views(rows@)[0] == rows@[0]@);
                    assert(good_views(rows@) =~= seq![rows@[0]@]);
                } else {
                    assert(good_views(rows@) =~= Seq::<GoodView>::empty());
                }
            },
            _ => {},
        }
    }
}

/// A good, and whether the operation created it, as plain data.
pub struct InsertedGoodView {
    pub good: GoodView,
    pub created: bool,
}

/// What an insert comes to where a good with the draft's material code is
/// looked for: that good, not created, if there is one, else `otherwise`.
pub open spec fn found_or(
    m: StoreModel,
    draft: CreateGoodRequest,
    otherwise: Outcome<InsertedGoodView>,
) -> Outcome<InsertedGoodView> {
    let found = first_match(m.tables.goods, has_material_code(draft.material_code@));
    if found.len() > 0 {
        Outcome::gives(m, InsertedGoodView { good: found[0], created: false })
    } else {
        otherwise
    }
}

/// What an insert comes to from the insert statement on: the new good, or,
/// where the store refuses the material code, the good that has it.
pub open spec fn inserted(m: StoreModel, draft: CreateGoodRequest) -> Outcome<InsertedGoodView> {
    let (tables, reply) = m.tables.insert_good(draft);
    let after = StoreModel { tables, saved: m.saved };
    match reply {
        ReplyView::Goods(rows) => if rows.len() > 0 {
            Outcome::gives(after, InsertedGoodView { good: rows[0], created: true })
        } else {
            Outcome::fails(after, ErrorKind::StoreFailure)
        },
        ReplyView::Failed(kind) => if kind == ErrorKind::Conflict {
            found_or(after, draft, Outcome::fails(after, ErrorKind::Conflict))
        } else {
            Outcome::fails(after, kind)
        },
        _ => Outcome::fails(after, ErrorKind::StoreFailure),
    }
}

impl Flow for GoodsInsert {
    type Output = InsertedGood;

    type OutputView = InsertedGoodView;

    open spec fn wf(&self) -> bool {
        true
    }

    /// What is asked in this state.
    open spec fn request(&self) -> Request<'_> {
        match self {
            GoodsInsert::Lookup { draft } => Request::GoodByMaterialCode(&draft.material_code),
            GoodsInsert::Insert { draft } => Request::InsertGood(draft),
            GoodsInsert::Relookup { draft } => Request::GoodByMaterialCode(&draft.material_code),
        }
    }

    /// How many questions can follow the one of this state.
    open spec fn rank(&self) -> nat {
        match self {
            GoodsInsert::Lookup { .. } => 2,
            GoodsInsert::Insert { .. } => 1,
            GoodsInsert::Relookup { .. } => 0,
        }
    }

    /// The step that an answer leads to.
    ///
    /// A good that has the draft's material code is the result, and nothing
    /// is created. Where there is none, the draft is inserted. Where the
    /// store refuses the insert because the code was taken in between, the
    /// good that took it is looked up and is the result; only if it is gone
    /// again does the insert end in a conflict.
    open spec fn next(self, reply: Reply) -> Step<GoodsInsert, InsertedGood> {
        match self {
            GoodsInsert::Lookup { draft } => match reply {
                Reply::Goods(rows) => if rows@.len() > 0 {
                    finished(InsertedGood { good: rows@[0], created: false })
                } else {
                    ask(GoodsInsert::Insert { draft })
                },
                _ => failed(reply_failure(reply)),
            },
            GoodsInsert::Insert { draft } => match reply {
                Reply::Goods(rows) => if rows@.len() > 0 {
                    finished(InsertedGood { good: rows@[0], created: true })
                } else {
                    failed(ErrorKind::StoreFailure)
                },
                Reply::Failed(e) => if e.kind() == ErrorKind::Conflict {
                    ask(GoodsInsert::Relookup { draft })
                } else {
                    failed(e.kind())
                },
                _ => failed(ErrorKind::StoreFailure),
            },
            GoodsInsert::Relookup { draft } => match reply {
                Reply::Goods(rows) => if rows@.len() > 0 {
                    finished(InsertedGood { good: rows@[0], created: false })
                } else {
                    failed(ErrorKind::Conflict)
                },
                _ => failed(reply_failure(reply)),
            },
        }
    }

    /// What to ask the store in this state.
    fn to_request(&self) -> (r: Request<'_>) {
        match self {
            GoodsInsert::Lookup { draft } => Request::GoodByMaterialCode(&draft.material_code),
            GoodsInsert::Insert { draft } => Request::InsertGood(draft),
            GoodsInsert::Relookup { draft } => Request::GoodByMaterialCode(&draft.material_code),
        }
    }

    /// Takes the store's answer and says how the insert goes on.
    fn resume(self, reply: Reply) -> (step: Step<GoodsInsert, InsertedGood>) {
        match self {
            GoodsInsert::Lookup { draft } => match reply {
                Reply::Goods(rows) => match first_good(rows) {
                    Some(good) => Step::Done {
                        produced: Some(InsertedGood { good, created: false }),
                        failure: None,
                    },
                    None => Step::Ask { state: GoodsInsert::Insert { draft }, produced: None },
                },
                other => Step::Done { produced: None, failure: Some(failure_of(&other)) },
            },
            GoodsInsert::Insert { draft } => match reply {
                Reply::Goods(rows) => match first_good(rows) {
                    Some(good) => Step::Done {
                        produced: Some(InsertedGood { good, created: true }),
                        failure: None,
                    },
                    None => Step::Done { produced: None, failure: Some(ErrorKind::StoreFailure) },
                },
                Reply::Failed(e) => {
                    let kind = e.classify();
                    match kind {
                        ErrorKind::Conflict => Step::Ask {
                            state: GoodsInsert::Relookup { draft },
                            produced: None,
                        },
                        _ => Step::Done { produced: None, failure: Some(kind) },
                    }
                },
                _ => Step::Done { produced: None, failure: Some(ErrorKind::StoreFailure) },
            },
            GoodsInsert::Relookup { draft } => match reply {
                Reply::Goods(rows) => match first_good(rows) {
                    Some(good) => Step::Done {
                        produced: Some(InsertedGood { good, created: false }),
                        failure: None,
                    },
                    None => Step::Done { produced: None, failure: Some(ErrorKind::Conflict) },
                },
                other => Step::Done { produced: None, failure: Some(failure_of(&other)) },
            },
        }
    }

    open spec fn product(x: InsertedGood) -> InsertedGoodView {
        InsertedGoodView { good: x.good@, created: x.created }
    }

    open spec fn outcome(self, m: StoreModel) -> Outcome<InsertedGoodView> {
        match self {
            GoodsInsert::Lookup { draft } => found_or(m, draft, inserted(m, draft)),
            GoodsInsert::Insert { draft } => inserted(m, draft),
            GoodsInsert::Relookup { draft } => found_or(
                m,
                draft,
                Outcome::fails(m, ErrorKind::Conflict),
            ),
        }
    }

    proof fn lemma_step(self, m: StoreModel, reply: Reply) {
        match reply {
            Reply::Goods(rows) => {
                if rows@.len() > 0 {
                    assert(good_views(rows@)[0] == rows@[0]@);
                }
            },
            _ => {},
        }
    }
}

/// What the patching of goods comes to from the good `rows[next]` on: each
/// good is patched with one statement and the row that comes back is
/// produced; the first good that is gone, or the first failure, ends it.
pub open spec fn patch_goods(
    m: StoreModel,
    patch: UpdateGoodRequest,
    rows: Seq<GoodView>,
    next: int,
) -> Outcome<GoodView>
    decreases rows.len() - next,
{
    if next < 0 || next >= rows.len() {
        Outcome { store: m, produced: Seq::empty(), failure: None }
    } else {
        let (tables, reply) = m.tables.update_good(rows[next].goods_id, patch);
        let after = StoreModel { tables, saved: m.saved };
        match reply {
            ReplyView::Goods(updated) => if updated.len() > 0 {
                patch_goods(after, patch, rows, next + 1).after(seq![updated[0]])
            } else {
                Outcome::fails(after, ErrorKind::NotFound)
            },
            ReplyView::Failed(kind) => Outcome::fails(after, kind),
            _ => Outcome::fails(after, ErrorKind::StoreFailure),
        }
    }
}

impl Flow for GoodsUpdate {
    type Output = Good;

    type OutputView = GoodView;

    /// The state is one that the operation can be in: there is a good at
    /// hand.
    open spec fn wf(&self) -> bool {
        match self {
            GoodsUpdate::Searching { .. } => true,
            GoodsUpdate::Updating { rows, next, .. } => *next < rows@.len(),
        }
    }


    /// What is asked in this state.
    open spec fn request(&self) -> Request<'_> {
        match self {
            GoodsUpdate::Searching { params, .. } => Request::SearchGoods(params),
            GoodsUpdate::Updating { patch, rows, next } => Request::UpdateGood {
                goods_id: rows@[*next as int].goods_id,
                patch,
            },
        }
    }

    /// A bound on the questions that can follow the one of this state.
    open spec fn rank(&self) -> nat {
        match self {
            GoodsUpdate::Searching { .. } => (usize::MAX + 1) as nat,
            GoodsUpdate::Updating { rows, next, .. } => (rows@.len() - *next) as nat,
        }
    }

    /// The step that an answer leads to.
    ///
    /// The goods that the filter selects are patched one by one, in the
    /// order of their keys, each with one statement; each patched row is
    /// produced as it comes back. Where no good is selected, or one is gone
    /// when its turn comes, the update ends with `NotFound`; where the store
    /// fails, with the kind of that failure. The goods produced before stay
    /// changed.
    open spec fn next(self, reply: Reply) -> Step<GoodsUpdate, Good> {
        match self {
            GoodsUpdate::Searching { params, patch } => match reply {
                Reply::Goods(rows) => if rows@.len() > 0 {
                    ask(GoodsUpdate::Updating { patch, rows, next: 0 })
                } else {
                    failed(ErrorKind::NotFound)
                },
                _ => failed(reply_failure(reply)),
            },
            GoodsUpdate::Updating { patch, rows, next } => match reply {
                Reply::Goods(updated) => if updated@.len() == 0 {
                    failed(ErrorKind::NotFound)
                } else if next + 1 < rows@.len() {
                    Step::Ask {
                        state: GoodsUpdate::Updating { patch, rows, next: (next + 1) as usize },
                        produced: Some(updated@[0]),
                    }
                } else {
                    finished(updated@[0])
                },
                _ => failed(reply_failure(reply)),
            },
        }
    }

    /// What to ask the store in this state.
    fn to_request(&self) -> (r: Request<'_>) {
        match self {
            GoodsUpdate::Searching { params, .. } => Request::SearchGoods(params),
            GoodsUpdate::Updating { patch, rows, next } => Request::UpdateGood {
                goods_id: rows[*next].goods_id,
                patch,
            },
        }
    }

    /// Takes the store's answer and says how the update goes on.
    fn resume(self, reply: Reply) -> (step: Step<GoodsUpdate, Good>) {
        match self {
            GoodsUpdate::Searching { params, patch } => match reply {
                Reply::Goods(rows) => {
                    if rows.len() > 0 {
                        Step::Ask {
                            state: GoodsUpdate::Updating { patch, rows, next: 0 },
                            produced: None,
                        }
                    } else {
                        Step::Done { produced: None, failure: Some(ErrorKind::NotFound) }
                    }
                },
                other => Step::Done { produced: None, failure: Some(failure_of(&other)) },
            },
            GoodsUpdate::Updating { patch, rows, next } => match reply {
                Reply::Goods(updated) => match first_good(updated) {
                    None => Step::Done { produced: None, failure: Some(ErrorKind::NotFound) },
                    Some(good) => {
                        let count = rows.len();
                        if next + 1 < count {
                            Step::Ask {
                                state: GoodsUpdate::Updating { patch, rows, next: next + 1 },
                                produced: Some(good),
                            }
                        } else {
                            Step::Done { produced: Some(good), failure: None }
                        }
                    },
                },
                other => Step::Done { produced: None, failure: Some(failure_of(&other)) },
            },
        }
    }

    open spec fn product(x: Good) -> GoodView {
        x@
    }

    open spec fn outcome(self, m: StoreModel) -> Outcome<GoodView> {
        match self {
            GoodsUpdate::Searching { params, patch } => {
                let rows = m.tables.select_goods(params);
                if rows.len() > 0 {
                    patch_goods(m, patch, rows, 0)
                } else {
                    Outcome::fails(m, ErrorKind::NotFound)
                }
            },
            GoodsUpdate::Updating { patch, rows, next } => patch_goods(
                m,
                patch,
                good_views(rows@),
                next as int,
            ),
        }
    }

    proof fn lemma_step(self, m: StoreModel, reply: Reply) {
        let after = m.answer(self.request()).0;
        match self {
            GoodsUpdate::Searching { params, patch } => {
                match reply {
                    Reply::Goods(rows) => {
                        assert(good_views(rows@).len() == rows@.len());
                        lemma_after_nothing(patch_goods(m, patch, good_views(rows@), 0));
                    },
                    _ => {},
                }
            },
            GoodsUpdate::Updating { patch, rows, next } => {
                let views = good_views(rows@);
                assert(views.len() == rows@.len());
                assert(rows@.len() == rows.len());
                assert(views[next as int] == rows@[next as int]@);
                match reply {
                    Reply::Goods(updated) => {
                        assert(good_views(updated@).len() == updated@.len());
                        if updated@.len() > 0 {
                            assert(good_views(updated@)[0] == updated@[0]@);
                            let rest = patch_goods(after, patch, views, next + 1);
                            if next + 1 >= rows@.len() {
                                assert(rest.after(seq![updated@[0]@]).produced =~= seq![
                                    updated@[0]@,
                                ]);
                            }
                        }
                    },
                    _ => {},
                }
            },
        }
    }
}

impl GoodsUpdate {
    /// How the update begins: a filter or a patch without any field is
    /// refused before the store is asked anything.
    pub open spec fn start(params: GoodsSearchParams, patch: UpdateGoodRequest) -> Step<
        GoodsUpdate,
        Good,
    > {
        if params.is_empty() || patch.is_empty() {
            failed(ErrorKind::InvalidInput)
        } else {
            ask(GoodsUpdate::Searching { params, patch })
        }
    }
}

/// What an operation comes to that gives up inside a transaction: the
/// transaction is rolled back, and nothing is produced.
pub open spec fn rolled_back<V>(m: StoreModel, kind: ErrorKind) -> Outcome<V> {
    Outcome::fails(m.answer(Request::Rollback).0, kind)
}

/// What the delete of goods comes to from the good `rows[next]` on, inside
/// the transaction. A good that a lot refers to ends it with
/// `ReferentialBlock` and a rollback; after the last good the transaction is
/// committed and the rows are the product.
pub open spec fn delete_rows(m: StoreModel, rows: Seq<GoodView>, next: int, phase: DeletePhase)
    -> Outcome<Seq<GoodView>>
    decreases rows.len() - next, (if phase == DeletePhase::Count { 1nat } else { 0nat }),
{
    if next < 0 || next >= rows.len() {
        Outcome::gives(m.answer(Request::Commit).0, rows)
    } else {
        match phase {
            DeletePhase::Count => if count_of(
                m.tables.inventory,
                refers_to(rows[next].goods_id),
                0,
            ) > 0 {
                rolled_back(m, ErrorKind::ReferentialBlock)
            } else {
                delete_rows(m, rows, next, DeletePhase::Delete)
            },
            DeletePhase::Delete => {
                let (tables, reply) = m.tables.delete_good(rows[next].goods_id);
                let after = StoreModel { tables, saved: m.saved };
                match reply {
                    ReplyView::Done => if next + 1 < rows.len() {
                        delete_rows(after, rows, next + 1, DeletePhase::Count)
                    } else {
                        Outcome::gives(after.answer(Request::Commit).0, rows)
                    },
                    ReplyView::Failed(kind) => rolled_back(after, kind),
                    _ => rolled_back(after, ErrorKind::StoreFailure),
                }
            },
        }
    }
}

/// What the delete of goods comes to once its transaction is open: the
/// goods that the filter selects are deleted, or, where it selects none,
/// the delete ends with `NotFound`.
pub open spec fn delete_selected(m: StoreModel, params: GoodsSearchParams) -> Outcome<
    Seq<GoodView>,
> {
    let rows = m.tables.select_goods(params);
    if rows.len() > 0 {
        delete_rows(m, rows, 0, DeletePhase::Count)
    } else {
        rolled_back(m, ErrorKind::NotFound)
    }
}

impl Flow for GoodsDelete {
    type Output = Vec<Good>;

    type OutputView = Seq<GoodView>;

    /// The state is one that the operation can be in: while it works, there
    /// is a good at hand.
    open spec fn wf(&self) -> bool {
        match self {
            GoodsDelete::Working { rows, next, .. } => *next < rows@.len(),
            _ => true,
        }
    }


    /// What is asked in this state.
    open spec fn request(&self) -> Request<'_> {
        match self {
            GoodsDelete::Beginning { .. } => Request::Begin,
            GoodsDelete::Searching { params } => Request::SearchGoods(params),
            GoodsDelete::Working { rows, next, phase } => match phase {
                DeletePhase::Count => Request::CountInventoryOfGood(rows@[*next as int].goods_id),
                DeletePhase::Delete => Request::DeleteGood(rows@[*next as int].goods_id),
            },
            GoodsDelete::Committing { .. } => Request::Commit,
            GoodsDelete::RollingBack { .. } => Request::Rollback,
        }
    }

    /// A bound on the questions that can follow the one of this state.
    open spec fn rank(&self) -> nat {
        match self {
            GoodsDelete::Beginning { .. } => (2 * usize::MAX + 5) as nat,
            GoodsDelete::Searching { .. } => (2 * usize::MAX + 4) as nat,
            GoodsDelete::Working { rows, next, phase } => match phase {
                DeletePhase::Count => (2 * (rows@.len() - *next) + 2) as nat,
                DeletePhase::Delete => (2 * (rows@.len() - *next) + 1) as nat,
            },
            GoodsDelete::Committing { .. } => 1,
            GoodsDelete::RollingBack { .. } => 0,
        }
    }

    /// The step that an answer leads to.
    ///
    /// Inside one transaction the goods that the filter selects are taken
    /// in the order of their keys: the lots that refer to a good are
    /// counted, and the good is deleted if there is none. The first good
    /// that a lot refers to ends the operation with `ReferentialBlock`;
    /// where no good is selected it ends with `NotFound`, where the store
    /// fails with the kind of that failure. In each of these cases the
    /// transaction is rolled back first, so that no good has gone. Only
    /// when every good is deleted is the transaction committed, and the
    /// deleted rows are the result.
    open spec fn next(self, reply: Reply) -> Step<GoodsDelete, Vec<Good>> {
        match self {
            GoodsDelete::Beginning { params } => match reply {
                Reply::Done => ask(GoodsDelete::Searching { params }),
                _ => failed(reply_failure(reply)),
            },
            GoodsDelete::Searching { params } => match reply {
                Reply::Goods(rows) => if rows@.len() > 0 {
                    ask(GoodsDelete::Working { rows, next: 0, phase: DeletePhase::Count })
                } else {
                    ask(GoodsDelete::RollingBack { kind: ErrorKind::NotFound })
                },
                _ => ask(GoodsDelete::RollingBack { kind: reply_failure(reply) }),
            },
            GoodsDelete::Working { rows, next, phase } => match phase {
                DeletePhase::Count => match reply {
                    Reply::Count(n) => if n > 0 {
                        ask(GoodsDelete::RollingBack { kind: ErrorKind::ReferentialBlock })
                    } else {
                        ask(GoodsDelete::Working { rows, next, phase: DeletePhase::Delete })
                    },
                    _ => ask(GoodsDelete::RollingBack { kind: reply_failure(reply) }),
                },
                DeletePhase::Delete => match reply {
                    Reply::Done => if next + 1 < rows@.len() {
                        ask(
                            GoodsDelete::Working {
                                rows,
                                next: (next + 1) as usize,
                                phase: DeletePhase::Count,
                            },
                        )
                    } else {
                        ask(GoodsDelete::Committing { rows })
                    },
                    _ => ask(GoodsDelete::RollingBack { kind: reply_failure(reply) }),
                },
            },
            GoodsDelete::Committing { rows } => match reply {
                Reply::Done => finished(rows),
                _ => failed(reply_failure(reply)),
            },
            GoodsDelete::RollingBack { kind } => failed(kind),
        }
    }

    /// What to ask the store in this state.
    fn to_request(&self) -> (r: Request<'_>) {
        match self {
            GoodsDelete::Beginning { .. } => Request::Begin,
            GoodsDelete::Searching { params } => Request::SearchGoods(params),
            GoodsDelete::Working { rows, next, phase } => match phase {
                DeletePhase::Count => Request::CountInventoryOfGood(rows[*next].goods_id),
                DeletePhase::Delete => Request::DeleteGood(rows[*next].goods_id),
            },
            GoodsDelete::Committing { .. } => Request::Commit,
            GoodsDelete::RollingBack { .. } => Request::Rollback,
        }
    }

    /// Takes the store's answer and says how the delete goes on.
    fn resume(self, reply: Reply) -> (step: Step<GoodsDelete, Vec<Good>>) {
        match self {
            GoodsDelete::Beginning { params } => match reply {
                Reply::Done => Step::Ask {
                    state: GoodsDelete::Searching { params },
                    produced: None,
                },
                other => Step::Done { produced: None, failure: Some(failure_of(&other)) },
            },
            GoodsDelete::Searching { params } => match reply {
                Reply::Goods(rows) => {
                    if rows.len() > 0 {
                        Step::Ask {
                            state: GoodsDelete::Working { rows, next: 0, phase: DeletePhase::Count },
                            produced: None,
                        }
                    } else {
                        Step::Ask {
                            state: GoodsDelete::RollingBack { kind: ErrorKind::NotFound },
                            produced: None,
                        }
                    }
                },
                other => Step::Ask {
                    state: GoodsDelete::RollingBack { kind: failure_of(&other) },
                    produced: None,
                },
            },
            GoodsDelete::Working { rows, next, phase } => match phase {
                DeletePhase::Count => match reply {
                    Reply::Count(n) => {
                        if n > 0 {
                            Step::Ask {
                                state: GoodsDelete::RollingBack {
                                    kind: ErrorKind::ReferentialBlock,
                                },
                                produced: None,
                            }
                        } else {
                            Step::Ask {
                                state: GoodsDelete::Working {
                                    rows,
                                    next,
                                    phase: DeletePhase::Delete,
                                },
                                produced: None,
                            }
                        }
                    },
                    other => Step::Ask {
                        state: GoodsDelete::RollingBack { kind: failure_of(&other) },
                        produced: None,
                    },
                },
                DeletePhase::Delete => match reply {
                    Reply::Done => {
                        let count = rows.len();
                        if next + 1 < count {
                            Step::Ask {
                                state: GoodsDelete::Working {
                                    rows,
                                    next: next + 1,
                                    phase: DeletePhase::Count,
                                },
                                produced: None,
                            }
                        } else {
                            Step::Ask { state: GoodsDelete::Committing { rows }, produced: None }
                        }
                    },
                    other => Step::Ask {
                        state: GoodsDelete::RollingBack { kind: failure_of(&other) },
                        produced: None,
                    },
                },
            },
            GoodsDelete::Committing { rows } => match reply {
                Reply::Done => Step::Done { produced: Some(rows), failure: None },
                other => Step::Done { produced: None, failure: Some(failure_of(&other)) },
            },
            GoodsDelete::RollingBack { kind } => Step::Done { produced: None, failure: Some(kind) },
        }
    }

    open spec fn product(x: Vec<Good>) -> Seq<GoodView> {
        good_views(x@)
    }

    open spec fn outcome(self, m: StoreModel) -> Outcome<Seq<GoodView>> {
        match self {
            GoodsDelete::Beginning { params } => delete_selected(m.answer(Request::Begin).0, params),
            GoodsDelete::Searching { params } => delete_selected(m, params),
            GoodsDelete::Working { rows, next, phase } => delete_rows(
                m,
                good_views(rows@),
                next as int,
                phase,
            ),
            GoodsDelete::Committing { rows } => Outcome::gives(
                m.answer(Request::Commit).0,
                good_views(rows@),
            ),
            GoodsDelete::RollingBack { kind } => rolled_back(m, kind),
        }
    }

    proof fn lemma_step(self, m: StoreModel, reply: Reply) {
        match self {
            GoodsDelete::Beginning { params } => {
                lemma_after_nothing(delete_selected(m.answer(Request::Begin).0, params));
            },
            GoodsDelete::Searching { params } => {
                match reply {
                    Reply::Goods(rows) => {
                        assert(good_views(rows@).len() == rows@.len());
                        lemma_after_nothing(delete_selected(m, params));
                    },
                    _ => {},
                }
            },
            GoodsDelete::Working { rows, next, phase } => {
                let views = good_views(rows@);
                assert(views.len() == rows@.len());
                assert(rows@.len() == rows.len());
                assert(views[next as int] == rows@[next as int]@);
                lemma_after_nothing(delete_rows(m, views, next as int, phase));
                match phase {
                    DeletePhase::Count => {},
                    DeletePhase::Delete => {
                        let (tables, answer) = m.tables.delete_good(rows@[next as int].goods_id);
                        let after = StoreModel { tables, saved: m.saved };
                        assert(after == m.answer(self.request()).0);
                    },
                }
            },
            GoodsDelete::Committing { rows } => {},
            GoodsDelete::RollingBack { kind } => {},
        }
    }
}

impl GoodsDelete {
    /// How the delete begins: a filter without any field is refused before
    /// the store is asked anything.
    pub open spec fn start(params: GoodsSearchParams) -> Step<GoodsDelete, Vec<Good>> {
        if params.is_empty() {
            failed(ErrorKind::InvalidInput)
        } else {
            ask(GoodsDelete::Beginning { params })
        }
    }
}

impl GoodsTable {
    /// The goods.
    pub fn new() -> Self {
        GoodsTable {  }
    }

    /// Starts a search: the goods that the filter selects, by key.
    pub fn search(&self, params: GoodsSearchParams) -> (step: Step<GoodsSearch, Vec<Good>>)
        ensures
            step == ask::<GoodsSearch, Vec<Good>>(GoodsSearch { params }),
    {
        Step::Ask { state: GoodsSearch { params }, produced: None }
    }

    /// Starts the look for the good with a key.
    pub fn get_by_id(&self, goods_id: i32) -> (step: Step<GoodLookup, Good>)
        ensures
            step == ask::<GoodLookup, Good>(GoodLookup::ById(goods_id)),
    {
        Step::Ask { state: GoodLookup::ById(goods_id), produced: None }
    }

    /// Starts the look for the good with a material code.
    pub fn get_by_material_code(&self, material_code: String) -> (step: Step<GoodLookup, Good>)
        ensures
            step == ask::<GoodLookup, Good>(GoodLookup::ByMaterialCode(material_code)),
    {
        Step::Ask { state: GoodLookup::ByMaterialCode(material_code), produced: None }
    }

    /// Starts an insert: the good with the draft's material code is the
    /// result if there is one, else the draft becomes a good.
    pub fn insert(&self, request: CreateGoodRequest) -> (step: Step<GoodsInsert, InsertedGood>)
        ensures
            step == ask::<GoodsInsert, InsertedGood>(GoodsInsert::Lookup { draft: request }),
    {
        Step::Ask { state: GoodsInsert::Lookup { draft: request }, produced: None }
    }

    /// Starts an update of the goods that a filter selects.
    pub fn update(&self, params: GoodsSearchParams, update_request: UpdateGoodRequest) -> (step:
        Step<GoodsUpdate, Good>)
        ensures
            step == GoodsUpdate::start(params, update_request),
            step matches Step::Ask { state, .. } ==> state.wf(),
    {
        if params.has_no_field() || update_request.has_no_field() {
            Step::Done { produced: None, failure: Some(ErrorKind::InvalidInput) }
        } else {
            Step::Ask {
                state: GoodsUpdate::Searching { params, patch: update_request },
                produced: None,
            }
        }
    }

    /// Starts a delete of the goods that a filter selects.
    pub fn delete(&self, params: GoodsSearchParams) -> (step: Step<GoodsDelete, Vec<Good>>)
        ensures
            step == GoodsDelete::start(params),
            step matches Step::Ask { state, .. } ==> state.wf(),
    {
        if params.has_no_field() {
            Step::Done { produced: None, failure: Some(ErrorKind::InvalidInput) }
        } else {
            Step::Ask { state: GoodsDelete::Beginning { params }, produced: None }
        }
    }
}

} // verus!
