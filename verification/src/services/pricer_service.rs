//! The target record, the transformer that derives it from a source record,
//! and its form on the wire.

use crate::model::result_view;
use crate::services::exchange::{
    Credentials, CredentialsView, Payload, Reply, Request, RequestView,
};
use crate::services::generic_label::{clone_text, GenericEsl, GenericEslView};
use crate::services::pricer::item::{
    submit_request, submitted, update_item, update_item_request, PricerAccepted,
};
use crate::services::pricer::labels::{
    map_esl_to_id, map_esl_to_id_request, resolve_request, resolved,
};
use crate::services::pricer::status::{
    confirm_request, confirmed, items_result, items_result_request,
};
use crate::text::{decimal, decimal_string};
use vstd::prelude::*;
use vstd::string::*;

verus! {

/// The display attributes of a target record. Each may be absent.
#[derive(Debug, PartialEq, Eq)]
pub struct PricerFishProperties {
    pub fish_calibre: Option<String>,
    pub fish_engin: Option<String>,
    pub fish_engin_2: Option<String>,
    pub fish_engin_3: Option<String>,
    pub fish_info: Option<String>,
    pub fish_name: Option<String>,
    pub fish_name_2: Option<String>,
    pub fish_name_scien: Option<String>,
    pub fish_origin: Option<String>,
    pub fish_origin_2: Option<String>,
    pub fish_production: Option<String>,
    pub fish_size: Option<String>,
    pub plu: Option<String>,
    pub allergenes: Option<String>,
    pub promo: Option<String>,
}

/// What a [`PricerFishProperties`] holds, as mathematical text.
pub struct PricerFishPropertiesView {
    pub fish_calibre: Option<Seq<char>>,
    pub fish_engin: Option<Seq<char>>,
    pub fish_engin_2: Option<Seq<char>>,
    pub fish_engin_3: Option<Seq<char>>,
    pub fish_info: Option<Seq<char>>,
    pub fish_name: Option<Seq<char>>,
    pub fish_name_2: Option<Seq<char>>,
    pub fish_name_scien: Option<Seq<char>>,
    pub fish_origin: Option<Seq<char>>,
    pub fish_origin_2: Option<Seq<char>>,
    pub fish_production: Option<Seq<char>>,
    pub fish_size: Option<Seq<char>>,
    pub plu: Option<Seq<char>>,
    pub allergenes: Option<Seq<char>>,
    pub promo: Option<Seq<char>>,
}

impl View for PricerFishProperties {
    type V = PricerFishPropertiesView;

    open spec fn view(&self) -> PricerFishPropertiesView {
        PricerFishPropertiesView {
            fish_calibre: self.fish_calibre.deep_view(),
            fish_engin: self.fish_engin.deep_view(),
            fish_engin_2: self.fish_engin_2.deep_view(),
            fish_engin_3: self.fish_engin_3.deep_view(),
            fish_info: self.fish_info.deep_view(),
            fish_name: self.fish_name.deep_view(),
            fish_name_2: self.fish_name_2.deep_view(),
            fish_name_scien: self.fish_name_scien.deep_view(),
            fish_origin: self.fish_origin.deep_view(),
            fish_origin_2: self.fish_origin_2.deep_view(),
            fish_production: self.fish_production.deep_view(),
            fish_size: self.fish_size.deep_view(),
            plu: self.plu.deep_view(),
            allergenes: self.allergenes.deep_view(),
            promo: self.promo.deep_view(),
        }
    }
}

impl DeepView for PricerFishProperties {
    type V = PricerFishPropertiesView;

    open spec fn deep_view(&self) -> PricerFishPropertiesView {
        self@
    }
}

impl Clone for PricerFishProperties {
    fn clone(&self) -> (copy: Self)
        ensures
            copy == *self,
    {
        PricerFishProperties {
            fish_calibre: clone_text(&self.fish_calibre),
            fish_engin: clone_text(&self.fish_engin),
            fish_engin_2: clone_text(&self.fish_engin_2),
            fish_engin_3: clone_text(&self.fish_engin_3),
            fish_info: clone_text(&self.fish_info),
            fish_name: clone_text(&self.fish_name),
            fish_name_2: clone_text(&self.fish_name_2),
            fish_name_scien: clone_text(&self.fish_name_scien),
            fish_origin: clone_text(&self.fish_origin),
            fish_origin_2: clone_text(&self.fish_origin_2),
            fish_production: clone_text(&self.fish_production),
            fish_size: clone_text(&self.fish_size),
            plu: clone_text(&self.plu),
            allergenes: clone_text(&self.allergenes),
            promo: clone_text(&self.promo),
        }
    }
}

/// The target record: what the label server is told to display for one
/// label. Until the label has been resolved, `item_id` holds what the source
/// record came with, empty text where it came with nothing.
#[derive(Debug, PartialEq, Eq)]
pub struct PricerEsl {
    pub barcode: String,
    pub item_id: String,
    pub item_name: String,
    /// Absent where another system fills the price in.
    pub price: Option<String>,
    pub properties: PricerFishProperties,
}

/// What a [`PricerEsl`] holds, as mathematical text.
pub struct PricerEslView {
    pub barcode: Seq<char>,
    pub item_id: Seq<char>,
    pub item_name: Seq<char>,
    pub price: Option<Seq<char>>,
    pub properties: PricerFishPropertiesView,
}

impl View for PricerEsl {
    type V = PricerEslView;

    open spec fn view(&self) -> PricerEslView {
        PricerEslView {
            barcode: self.barcode@,
            item_id: self.item_id@,
            item_name: self.item_name@,
            price: self.price.deep_view(),
            properties: self.properties@,
        }
    }
}

impl DeepView for PricerEsl {
    type V = PricerEslView;

    open spec fn deep_view(&self) -> PricerEslView {
        self@
    }
}

impl Clone for PricerEsl {
    fn clone(&self) -> (copy: Self)
        ensures
            copy == *self,
    {
        PricerEsl {
            barcode: self.barcode.clone(),
            item_id: self.item_id.clone(),
            item_name: self.item_name.clone(),
            price: clone_text(&self.price),
            properties: self.properties.clone(),
        }
    }
}

/// Why an exchange with the label server failed.
#[derive(Debug, PartialEq, Eq)]
pub enum PricerError {
    /// The request got no response.
    Transport { detail: String },
    /// The response did not have the shape that was expected.
    Deserialization,
    /// No item is linked to the label; also returned where the label server
    /// has no outcome for an accepted update.
    MissingItem,
    /// The label server did not accept the update of the label `id`.
    UpdateFailed { id: String },
}

/// What a [`PricerError`] holds, as mathematical text.
pub enum PricerErrorView {
    Transport { detail: Seq<char> },
    Deserialization,
    MissingItem,
    UpdateFailed { id: Seq<char> },
}

impl View for PricerError {
    type V = PricerErrorView;

    open spec fn view(&self) -> PricerErrorView {
        match self {
            PricerError::Transport { detail } => PricerErrorView::Transport { detail: detail@ },
            PricerError::Deserialization => PricerErrorView::Deserialization,
            PricerError::MissingItem => PricerErrorView::MissingItem,
            PricerError::UpdateFailed { id } => PricerErrorView::UpdateFailed { id: id@ },
        }
    }
}

impl DeepView for PricerError {
    type V = PricerErrorView;

    open spec fn deep_view(&self) -> PricerErrorView {
        self@
    }
}

/// What is logged for a [`PricerError`].
pub open spec fn pricer_error_text(error: PricerErrorView) -> Seq<char> {
    match error {
        PricerErrorView::Transport { detail } => "An issue occured within this request: "@
            + detail,
        PricerErrorView::Deserialization =>
            "An issue occured within this request: error decoding response body"@,
        PricerErrorView::MissingItem => "Cannot find an item linked to this barcode"@,
        PricerErrorView::UpdateFailed { id } => "PricerError, cannot update this item: "@ + id,
    }
}

impl PricerError {
    /// The error in words, for the log.
    pub fn message(&self) -> (text: String)
        ensures
            text@ == pricer_error_text(self@),
    {
        match self {
            PricerError::Transport { detail } => String::from_str(
                "An issue occured within this request: ",
            ).concat(detail.as_str()),
            PricerError::Deserialization => String::from_str(
                "An issue occured within this request: error decoding response body",
            ),
            PricerError::MissingItem => String::from_str(
                "Cannot find an item linked to this barcode",
            ),
            PricerError::UpdateFailed { id } => String::from_str(
                "PricerError, cannot update this item: ",
            ).concat(id.as_str()),
        }
    }
}

/// The text of an optional value, empty where it is absent.
pub open spec fn or_empty(text: Option<Seq<char>>) -> Seq<char> {
    match text {
        Some(t) => t,
        None => Seq::<char>::empty(),
    }
}

/// The fishing gear shown for a record: none for a product that has an
/// origin (it was sourced, not caught), else the record's gear.
pub open spec fn shown_gear(v: GenericEslView) -> Option<Seq<char>> {
    if v.origine is Some {
        None
    } else {
        v.engin
    }
}

/// The primary origin shown for a record: its origin, else its zone, else
/// empty text.
pub open spec fn shown_origin(v: GenericEslView) -> Seq<char> {
    match v.origine {
        Some(origin) => origin,
        None => or_empty(v.zone),
    }
}

/// The target record derived from a source record.
pub open spec fn transformed(v: GenericEslView) -> PricerEslView {
    PricerEslView {
        barcode: v.id,
        item_id: or_empty(v.object_id),
        item_name: v.nom,
        price: None,
        properties: PricerFishPropertiesView {
            fish_calibre: None,
            fish_engin: shown_gear(v),
            fish_engin_2: None,
            fish_engin_3: None,
            fish_info: v.congel_infos,
            fish_name: Some(v.nom),
            fish_name_2: None,
            fish_name_scien: Some(v.nom_scientifique),
            fish_origin: Some(shown_origin(v)),
            fish_origin_2: Some(or_empty(v.sous_zone)),
            fish_production: v.production,
            fish_size: Some(v.taille),
            plu: Some(v.plu),
            allergenes: v.allergenes,
            promo: None,
        },
    }
}

/// The rules of the transformer, for every source record: the primary
/// origin shown is the record's origin where it has one, else its zone,
/// else empty text; no fishing gear is shown for a record that has an
/// origin, whatever its gear; and the barcode is the record's id.
pub proof fn lemma_transformer_rules(v: GenericEslView)
    ensures
        transformed(v).barcode == v.id,
        transformed(v).properties.fish_origin == Some(
            if v.origine is Some {
                v.origine->0
            } else if v.zone is Some {
                v.zone->0
            } else {
                Seq::<char>::empty()
            },
        ),
        v.origine is Some ==> transformed(v).properties.fish_engin is None,
        v.origine is None ==> transformed(v).properties.fish_engin == v.engin,
{
}

/// The text of an optional value, a fresh empty string where it is absent.
fn text_or_empty(text: Option<String>) -> (out: String)
    ensures
        out@ == or_empty(text.deep_view()),
{
    match text {
        Some(t) => t,
        None => String::new(),
    }
}

/// The conversion is specified on `from` itself, over views. Two strings
/// with the same text need not be the same value, so the record that `from`
/// builds cannot be named as a value here, and `from_spec` promises nothing.
impl vstd::std_specs::convert::FromSpecImpl<GenericEsl> for PricerEsl {
    open spec fn obeys_from_spec() -> bool {
        false
    }

    open spec fn from_spec(value: GenericEsl) -> PricerEsl {
        arbitrary()
    }
}

impl From<GenericEsl> for PricerEsl {
    /// The transformer. It is total, and what it gives is a function of the
    /// source record's text alone: the same record gives the same target
    /// record, character for character.
    fn from(value: GenericEsl) -> (esl: PricerEsl)
        ensures
            esl@ == transformed(value@),
    {
        let fish_engin: Option<String> = if value.origine.is_some() {
            None
        } else {
            value.engin
        };
        let fish_origin: String = match value.origine {
            Some(origin) => origin,
            None => text_or_empty(value.zone),
        };
        let properties = PricerFishProperties {
            fish_calibre: None,
            fish_engin,
            fish_engin_2: None,
            fish_engin_3: None,
            fish_info: value.congel_infos,
            fish_name: Some(value.nom.clone()),
            fish_name_2: None,
            fish_name_scien: Some(value.nom_scientifique),
            fish_origin: Some(fish_origin),
            fish_origin_2: Some(text_or_empty(value.sous_zone)),
            fish_production: value.production,
            fish_size: Some(value.taille),
            plu: Some(value.plu),
            allergenes: value.allergenes,
            promo: None,
        };
        PricerEsl {
            item_id: text_or_empty(value.object_id),
            barcode: value.id,
            item_name: value.nom,
            price: None,
            properties,
        }
    }
}

/// Where the update of one record stands: the step whose request is
/// pending.
#[derive(Clone, Copy, Debug, PartialEq, Eq, Structural)]
pub enum UpdateStep {
    /// The label is to be resolved to an item.
    Resolve,
    /// The resolved record is to be submitted.
    Submit,
    /// The outcome of the accepted update is to be fetched.
    Confirm { accepted: PricerAccepted },
}

/// The update of one record in progress.
#[derive(Debug, PartialEq, Eq)]
pub struct Update {
    pub esl: PricerEsl,
    pub step: UpdateStep,
}

/// What an [`Update`] holds, as mathematical values.
pub struct UpdateView {
    pub esl: PricerEslView,
    pub step: UpdateStep,
}

impl View for Update {
    type V = UpdateView;

    open spec fn view(&self) -> UpdateView {
        UpdateView { esl: self.esl@, step: self.step }
    }
}

impl DeepView for Update {
    type V = UpdateView;

    open spec fn deep_view(&self) -> UpdateView {
        self@
    }
}

/// What one reply makes of an update: the next step is pending, or the
/// record has gone through all three.
#[derive(Debug, PartialEq, Eq)]
pub enum Progress {
    Pending(Update),
    Complete(PricerEsl),
}

/// What a [`Progress`] holds, as mathematical values.
pub enum ProgressView {
    Pending(UpdateView),
    Complete(PricerEslView),
}

impl View for Progress {
    type V = ProgressView;

    open spec fn view(&self) -> ProgressView {
        match self {
            Progress::Pending(update) => ProgressView::Pending(update@),
            Progress::Complete(esl) => ProgressView::Complete(esl@),
        }
    }
}

impl DeepView for Progress {
    type V = ProgressView;

    open spec fn deep_view(&self) -> ProgressView {
        self@
    }
}

/// The update of `esl` before anything was sent.
pub open spec fn started(esl: PricerEslView) -> UpdateView {
    UpdateView { esl, step: UpdateStep::Resolve }
}

/// The request that is pending in an update.
pub open spec fn pending_request(
    update: UpdateView,
    server: Seq<char>,
    credentials: CredentialsView,
) -> RequestView {
    match update.step {
        UpdateStep::Resolve => resolve_request(update.esl, server, credentials),
        UpdateStep::Submit => submit_request(update.esl, server, credentials),
        UpdateStep::Confirm { accepted } => confirm_request(accepted, server, credentials),
    }
}

/// What the reply to the pending request makes of an update. The steps
/// follow in order (resolve, submit, confirm), none is repeated, and the
/// first error ends the update.
pub open spec fn advanced(update: UpdateView, reply: Reply) -> Result<
    ProgressView,
    PricerErrorView,
> {
    match update.step {
        UpdateStep::Resolve => match resolved(update.esl, reply) {
            Ok(esl) => Ok(ProgressView::Pending(UpdateView { esl, step: UpdateStep::Submit })),
            Err(error) => Err(error),
        },
        UpdateStep::Submit => match submitted(update.esl, reply) {
            Ok(accepted) => Ok(
                ProgressView::Pending(
                    UpdateView { esl: update.esl, step: UpdateStep::Confirm { accepted } },
                ),
            ),
            Err(error) => Err(error),
        },
        UpdateStep::Confirm { accepted } => match confirmed(reply) {
            Ok(outcome) => Ok(ProgressView::Complete(update.esl)),
            Err(error) => Err(error),
        },
    }
}

/// What an observer is shown while the request of an update is pending.
pub open spec fn update_progress_text(update: UpdateView) -> Seq<char> {
    match update.step {
        UpdateStep::Resolve => "[1/3] Getting items for esl id "@ + update.esl.barcode,
        UpdateStep::Submit => "[2/3] Updating item id "@ + update.esl.item_id,
        UpdateStep::Confirm { accepted } => "[3/3] Checking update status for request_id "@
            + decimal(accepted.request_id as int),
    }
}

impl Update {
    /// Starts the update of a record: its label is to be resolved first.
    pub fn new(esl: PricerEsl) -> (update: Update)
        ensures
            update@ == started(esl@),
    {
        Update { esl, step: UpdateStep::Resolve }
    }

    /// What to show an observer while the request of this update is
    /// pending. Showing it, or not, changes nothing in the update.
    pub fn progress(&self) -> (text: String)
        ensures
            text@ == update_progress_text(self@),
    {
        match self.step {
            UpdateStep::Resolve => String::from_str("[1/3] Getting items for esl id ").concat(
                self.esl.barcode.as_str(),
            ),
            UpdateStep::Submit => String::from_str("[2/3] Updating item id ").concat(
                self.esl.item_id.as_str(),
            ),
            UpdateStep::Confirm { accepted } => String::from_str(
                "[3/3] Checking update status for request_id ",
            ).concat(decimal_string(accepted.request_id).as_str()),
        }
    }

    /// The request to send next.
    pub fn request(&self, esl_server_url: &str, credentials: &Credentials) -> (request: Request)
        ensures
            request@ == pending_request(self@, esl_server_url@, credentials@),
    {
        match self.step {
            UpdateStep::Resolve => map_esl_to_id_request(&self.esl, esl_server_url, credentials),
            UpdateStep::Submit => update_item_request(&self.esl, esl_server_url, credentials),
            UpdateStep::Confirm { accepted } => items_result_request(
                accepted,
                esl_server_url,
                credentials,
            ),
        }
    }
}

/// One step of the update protocol: takes the reply to the pending request
/// and says what is pending next, that the record is through, or the error
/// that ends the update.
pub fn on_poll(update: Update, reply: Reply) -> (outcome: Result<Progress, PricerError>)
    ensures
        result_view(outcome) == advanced(update@, reply),
{
    let Update { esl, step } = update;
    match step {
        UpdateStep::Resolve => match map_esl_to_id(esl, reply) {
            Ok(mapped_esl) => Ok(
                Progress::Pending(Update { esl: mapped_esl, step: UpdateStep::Submit }),
            ),
            Err(error) => Err(error),
        },
        UpdateStep::Submit => match update_item(&esl, reply) {
            Ok(accepted) => Ok(
                Progress::Pending(Update { esl, step: UpdateStep::Confirm { accepted } }),
            ),
            Err(error) => Err(error),
        },
        UpdateStep::Confirm { accepted } => match items_result(reply) {
            Ok(update_status) => Ok(Progress::Complete(esl)),
            Err(error) => Err(error),
        },
    }
}

/// Where the update of `esl` stands after the replies in `replies`, each
/// taken as the answer to the request that was pending when it came. After
/// an error, and after the record is through, further replies change
/// nothing.
pub open spec fn after_replies(esl: PricerEslView, replies: Seq<Reply>) -> Result<
    ProgressView,
    PricerErrorView,
>
    decreases replies.len(),
{
    if replies.len() == 0 {
        Ok(ProgressView::Pending(started(esl)))
    } else {
        match after_replies(esl, replies.drop_last()) {
            Ok(ProgressView::Pending(update)) => advanced(update, replies.last()),
            settled => settled,
        }
    }
}

/// The result of the whole protocol on three replies: the resolved record
/// where every step succeeds, else the error of the first step that fails.
pub open spec fn protocol_outcome(
    esl: PricerEslView,
    labels: Reply,
    acceptance: Reply,
    outcome: Reply,
) -> Result<PricerEslView, PricerErrorView> {
    match resolved(esl, labels) {
        Err(error) => Err(error),
        Ok(mapped) => match submitted(mapped, acceptance) {
            Err(error) => Err(error),
            Ok(accepted) => match confirmed(outcome) {
                Err(error) => Err(error),
                Ok(status) => Ok(mapped),
            },
        },
    }
}

/// A record is submitted only once its label has been resolved. However the
/// label server answers: before the first reply the resolve step is pending;
/// a submit or confirm step is pending, or the record is through, only if
/// the first reply resolved the label, and the record then carries the item
/// that this reply gave. The request that is then pending carries that
/// record.
pub proof fn lemma_submitted_only_when_resolved(esl: PricerEslView, replies: Seq<Reply>)
    ensures
        match after_replies(esl, replies) {
            Ok(ProgressView::Pending(update)) => {
                &&& update.step is Resolve <==> replies.len() == 0
                &&& update.step is Submit <==> replies.len() == 1
                &&& update.step is Confirm <==> replies.len() == 2
                &&& replies.len() == 0 ==> update.esl == esl
                &&& replies.len() > 0 ==> resolved(esl, replies[0]) == Ok::<
                    PricerEslView,
                    PricerErrorView,
                >(update.esl)
            },
            Ok(ProgressView::Complete(mapped)) => {
                &&& replies.len() >= 3
                &&& resolved(esl, replies[0]) == Ok::<PricerEslView, PricerErrorView>(mapped)
            },
            Err(error) => replies.len() > 0,
        },
    decreases replies.len(),
{
    if replies.len() > 0 {
        let earlier = replies.drop_last();
        lemma_submitted_only_when_resolved(esl, earlier);
        if earlier.len() > 0 {
            assert(earlier[0] == replies[0]);
        }
    }
}

/// An update in progress that a run of the protocol can lead to: there is a
/// record and there are replies after which the update stands as it does.
pub open spec fn led_to(update: UpdateView) -> bool {
    exists|esl: PricerEslView, replies: Seq<Reply>| #[trigger]
        after_replies(esl, replies) == Ok::<ProgressView, PricerErrorView>(
            ProgressView::Pending(update),
        )
}

/// An update that is led to carries a resolved record as soon as it is past
/// the resolve step: some reply resolved the label, and the record holds
/// the item that this reply gave.
pub proof fn lemma_led_to_is_resolved(update: UpdateView)
    requires
        led_to(update),
    ensures
        update.step is Resolve || exists|esl: PricerEslView, reply: Reply| #[trigger]
            resolved(esl, reply) == Ok::<PricerEslView, PricerErrorView>(update.esl),
{
    let (esl, replies) = choose|esl: PricerEslView, replies: Seq<Reply>| #[trigger]
        after_replies(esl, replies) == Ok::<ProgressView, PricerErrorView>(
            ProgressView::Pending(update),
        );
    lemma_submitted_only_when_resolved(esl, replies);
    if replies.len() > 0 {
        assert(resolved(esl, replies[0]) == Ok::<PricerEslView, PricerErrorView>(update.esl));
    }
}

/// An update that has just been started is led to, by no reply at all.
pub proof fn lemma_started_is_led_to(esl: PricerEslView)
    ensures
        led_to(started(esl)),
{
    assert(after_replies(esl, Seq::<Reply>::empty()) == Ok::<ProgressView, PricerErrorView>(
        ProgressView::Pending(started(esl)),
    ));
}

/// What the protocol leads to, it leads on from: what a reply makes of an
/// update that is led to is led to as well.
pub proof fn lemma_led_to_goes_on(update: UpdateView, reply: Reply)
    requires
        led_to(update),
    ensures
        advanced(update, reply) matches Ok(ProgressView::Pending(next)) ==> led_to(next),
{
    let (esl, replies) = choose|esl: PricerEslView, replies: Seq<Reply>| #[trigger]
        after_replies(esl, replies) == Ok::<ProgressView, PricerErrorView>(
            ProgressView::Pending(update),
        );
    let longer = replies.push(reply);
    assert(longer.drop_last() =~= replies);
    assert(longer.last() == reply);
    assert(after_replies(esl, longer) == advanced(update, reply));
}

/// The protocol returns the resolved record where all three steps succeed,
/// and the error of the first step that fails otherwise. After a failed
/// step no further request is pending.
pub proof fn lemma_protocol_outcome(
    esl: PricerEslView,
    labels: Reply,
    acceptance: Reply,
    outcome: Reply,
)
    ensures
        match after_replies(esl, seq![labels, acceptance, outcome]) {
            Ok(ProgressView::Complete(mapped)) => protocol_outcome(
                esl,
                labels,
                acceptance,
                outcome,
            ) == Ok::<PricerEslView, PricerErrorView>(mapped),
            Ok(ProgressView::Pending(update)) => false,
            Err(error) => protocol_outcome(esl, labels, acceptance, outcome) == Err::<
                PricerEslView,
                PricerErrorView,
            >(error),
        },
{
    let all = seq![labels, acceptance, outcome];
    let two = all.drop_last();
    let one = two.drop_last();
    let none = one.drop_last();
    assert(none.len() == 0);
    assert(one.last() == labels);
    assert(two.last() == acceptance);
    assert(all.last() == outcome);
    assert(after_replies(esl, none) == Ok::<ProgressView, PricerErrorView>(
        ProgressView::Pending(started(esl)),
    ));
    assert(after_replies(esl, one) == advanced(started(esl), labels));
    match after_replies(esl, one) {
        Ok(ProgressView::Pending(mapped)) => {
            assert(after_replies(esl, two) == advanced(mapped, acceptance));
            match after_replies(esl, two) {
                Ok(ProgressView::Pending(accepted)) => {
                    assert(after_replies(esl, all) == advanced(accepted, outcome));
                },
                _ => {},
            }
        },
        _ => {},
    }
}

/// A label that cannot be resolved gives `MissingItem`: whenever the label
/// server answers the resolve step with a status other than 200, or with a
/// descriptor that has no link. The record is then not submitted.
pub proof fn lemma_unresolved_label_is_missing(esl: PricerEslView, reply: Reply)
    requires
        reply matches Reply::Answered { status, payload } && (status != 200 || (
        payload matches Payload::Labels(labels) && labels.links@.len() == 0)),
    ensures
        advanced(started(esl), reply) == Err::<ProgressView, PricerErrorView>(
            PricerErrorView::MissingItem,
        ),
{
}

} // verus!
