//! The typed values a Delta Sharing server returns.

use vstd::prelude::*;

verus! {

use crate::delta::DeltaAction;
use crate::envelope::items_of_json;
use crate::envelope::items_from_json;
use crate::envelope::obj_get;
use crate::envelope::obj_get_x;
use crate::envelope::opt_str_field;
use crate::envelope::opt_str_field_x;
use crate::envelope::req_str_field;
use crate::envelope::req_str_field_x;
use crate::envelope::JsonPayload;
use crate::envelope::JsonValue;
use crate::json::json_of_text;
use crate::json::parse_json_text;
use crate::json::Json;
use crate::json::JsonView;
use crate::parquet::ParquetAction;

/// The views of a sequence of values, in order.
pub open spec fn views_of<T: View>(s: Seq<T>) -> Seq<T::V> {
    Seq::new(s.len(), |i: int| s[i]@)
}

/// A named collection of schemas exposed by a sharing server.
#[derive(Debug)]
pub struct Share {
    id: Option<String>,
    name: String,
}

/// Specification-level value of a [`Share`].
pub struct ShareView {
    pub id: Option<Seq<char>>,
    pub name: Seq<char>,
}

impl View for Share {
    type V = ShareView;

    closed spec fn view(&self) -> ShareView {
        ShareView { id: self.id.deep_view(), name: self.name@ }
    }
}

impl Share {
    /// A share with the given name and optional server-assigned id.
    pub fn new(name: String, id: Option<String>) -> (r: Self)
        ensures
            r@ == (ShareView { id: id.deep_view(), name: name@ }),
    {
        Self { id, name }
    }

    /// The name of the share.
    pub fn name(&self) -> (r: &str)
        ensures
            r@ == self@.name,
    {
        self.name.as_str()
    }

    /// The server-assigned id of the share, if any.
    pub fn id(&self) -> (r: Option<&str>)
        ensures
            r.deep_view() == self@.id,
    {
        match &self.id {
            Some(i) => Some(i.as_str()),
            None => None,
        }
    }
}

/// A namespace of tables within a share.
#[derive(Debug)]
pub struct Schema {
    name: String,
    share: String,
}

/// Specification-level value of a [`Schema`].
pub struct SchemaView {
    pub name: Seq<char>,
    pub share: Seq<char>,
}

impl View for Schema {
    type V = SchemaView;

    closed spec fn view(&self) -> SchemaView {
        SchemaView { name: self.name@, share: self.share@ }
    }
}

impl Schema {
    /// A schema with the given name inside the given share.
    pub fn new(name: String, share: String) -> (r: Self)
        ensures
            r@ == (SchemaView { name: name@, share: share@ }),
    {
        Self { name, share }
    }

    /// The name of the schema.
    pub fn name(&self) -> (r: &str)
        ensures
            r@ == self@.name,
    {
        self.name.as_str()
    }

    /// The share the schema belongs to.
    pub fn share(&self) -> (r: &str)
        ensures
            r@ == self@.share,
    {
        self.share.as_str()
    }
}

/// A queryable dataset identified by share, schema and table name.
#[derive(Debug)]
pub struct Table {
    name: String,
    schema: String,
    share: String,
    share_id: Option<String>,
    id: Option<String>,
}

/// Specification-level value of a [`Table`].
pub struct TableView {
    pub name: Seq<char>,
    pub schema: Seq<char>,
    pub share: Seq<char>,
    pub share_id: Option<Seq<char>>,
    pub id: Option<Seq<char>>,
}

impl View for Table {
    type V = TableView;

    closed spec fn view(&self) -> TableView {
        TableView {
            name: self.name@,
            schema: self.schema@,
            share: self.share@,
            share_id: self.share_id.deep_view(),
            id: self.id.deep_view(),
        }
    }
}

impl Table {
    /// A table with the given coordinates and optional server-assigned ids.
    pub fn new(
        name: String,
        schema: String,
        share: String,
        share_id: Option<String>,
        id: Option<String>,
    ) -> (r: Self)
        ensures
            r@ == (TableView {
                name: name@,
                schema: schema@,
                share: share@,
                share_id: share_id.deep_view(),
                id: id.deep_view(),
            }),
    {
        Self { name, schema, share, share_id, id }
    }

    /// The name of the table.
    pub fn name(&self) -> (r: &str)
        ensures
            r@ == self@.name,
    {
        self.name.as_str()
    }

    /// The schema the table belongs to.
    pub fn schema(&self) -> (r: &str)
        ensures
            r@ == self@.schema,
    {
        self.schema.as_str()
    }

    /// The share the table belongs to.
    pub fn share(&self) -> (r: &str)
        ensures
            r@ == self@.share,
    {
        self.share.as_str()
    }
}

/// One page of a listing: its items in order and the continuation token,
/// absent on the last page.
#[derive(Debug)]
pub struct ListResponse<T> {
    items: Vec<T>,
    next_page_token: Option<String>,
}

/// Specification-level value of a [`ListResponse`].
pub struct ListResponseView<IV> {
    pub items: Seq<IV>,
    pub next_page_token: Option<Seq<char>>,
}

impl<T: View> View for ListResponse<T> {
    type V = ListResponseView<T::V>;

    closed spec fn view(&self) -> ListResponseView<T::V> {
        ListResponseView {
            items: views_of(self.items@),
            next_page_token: self.next_page_token.deep_view(),
        }
    }
}

impl<T: View> ListResponse<T> {
    /// A page holding the given items and continuation token.
    pub fn new(items: Vec<T>, next_page_token: Option<String>) -> (r: Self)
        ensures
            r@ == (ListResponseView {
                items: views_of(items@),
                next_page_token: next_page_token.deep_view(),
            }),
    {
        Self { items, next_page_token }
    }

    /// The items of the page, in order.
    pub fn items(&self) -> (r: &Vec<T>)
        ensures
            views_of(r@) == self@.items,
    {
        &self.items
    }

    /// The continuation token of the page, if any.
    pub fn next_page_token(&self) -> (r: Option<&str>)
        ensures
            r.deep_view() == self@.next_page_token,
    {
        match &self.next_page_token {
            Some(t) => Some(t.as_str()),
            None => None,
        }
    }

    /// The items of the page, handing the page over.
    pub fn into_items(self) -> (r: Vec<T>)
        ensures
            views_of(r@) == self@.items,
    {
        self.items
    }
}

impl JsonValue for Share {
    /// A share record: an object with a required `name` string and an
    /// optional `id` string.
    open spec fn of_json(j: JsonView) -> Option<ShareView> {
        match j {
            JsonView::Obj(m) => match (req_str_field(m, "name"@), opt_str_field(m, "id"@)) {
                (Some(name), Some(id)) => Some(ShareView { id, name }),
                _ => None,
            },
            _ => None,
        }
    }

    fn from_json(j: &Json) -> (r: Option<Self>) {
        match j {
            Json::Obj(m) => {
                let name = match req_str_field_x(m, "name") {
                    Some(n) => n,
                    None => {
                        return None;
                    },
                };
                let id = match opt_str_field_x(m, "id") {
                    Some(i) => i,
                    None => {
                        return None;
                    },
                };
                Some(Share { id, name })
            },
            _ => None,
        }
    }
}

impl JsonValue for Schema {
    /// A schema record: an object with required `name` and `share` strings.
    open spec fn of_json(j: JsonView) -> Option<SchemaView> {
        match j {
            JsonView::Obj(m) => match (req_str_field(m, "name"@), req_str_field(m, "share"@)) {
                (Some(name), Some(share)) => Some(SchemaView { name, share }),
                _ => None,
            },
            _ => None,
        }
    }

    fn from_json(j: &Json) -> (r: Option<Self>) {
        match j {
            Json::Obj(m) => {
                let name = match req_str_field_x(m, "name") {
                    Some(n) => n,
                    None => {
                        return None;
                    },
                };
                let share = match req_str_field_x(m, "share") {
                    Some(s) => s,
                    None => {
                        return None;
                    },
                };
                Some(Schema { name, share })
            },
            _ => None,
        }
    }
}

impl JsonValue for Table {
    /// A table record: an object with required `name`, `schema` and `share`
    /// strings and optional `shareId` and `id` strings.
    open spec fn of_json(j: JsonView) -> Option<TableView> {
        match j {
            JsonView::Obj(m) => match (
                req_str_field(m, "name"@),
                req_str_field(m, "schema"@),
                req_str_field(m, "share"@),
                opt_str_field(m, "shareId"@),
                opt_str_field(m, "id"@),
            ) {
                (Some(name), Some(schema), Some(share), Some(share_id), Some(id)) => Some(
                    TableView { name, schema, share, share_id, id },
                ),
                _ => None,
            },
            _ => None,
        }
    }

    fn from_json(j: &Json) -> (r: Option<Self>) {
        match j {
            Json::Obj(m) => {
                let name = match req_str_field_x(m, "name") {
                    Some(n) => n,
                    None => {
                        return None;
                    },
                };
                let schema = match req_str_field_x(m, "schema") {
                    Some(s) => s,
                    None => {
                        return None;
                    },
                };
                let share = match req_str_field_x(m, "share") {
                    Some(s) => s,
                    None => {
                        return None;
                    },
                };
                let share_id = match opt_str_field_x(m, "shareId") {
                    Some(s) => s,
                    None => {
                        return None;
                    },
                };
                let id = match opt_str_field_x(m, "id") {
                    Some(i) => i,
                    None => {
                        return None;
                    },
                };
                Some(Table { name, schema, share, share_id, id })
            },
            _ => None,
        }
    }
}

impl<T: JsonValue> JsonPayload for ListResponse<T> {
    /// A listing page: an object with a required `items` array of records
    /// and an optional `nextPageToken` string.
    open spec fn body_of(s: Seq<char>) -> Option<ListResponseView<T::V>> {
        match json_of_text(s) {
            Some(JsonView::Obj(m)) => match obj_get(m, "items"@) {
                Some(JsonView::Arr(elems)) => match items_of_json::<T>(elems) {
                    Some(vs) => match opt_str_field(m, "nextPageToken"@) {
                        Some(tok) => Some(ListResponseView { items: vs, next_page_token: tok }),
                        None => None,
                    },
                    None => None,
                },
                _ => None,
            },
            _ => None,
        }
    }

    fn parse_body(body: &str) -> (r: Option<Self>) {
        let parsed = match parse_json_text(body) {
            Some(j) => j,
            None => {
                return None;
            },
        };
        match parsed {
            Json::Obj(m) => {
                let items = match obj_get_x(&m, "items") {
                    Some(Json::Arr(elems)) => match items_from_json::<T>(elems) {
                        Some(v) => v,
                        None => {
                            return None;
                        },
                    },
                    _ => {
                        return None;
                    },
                };
                let next_page_token = match opt_str_field_x(&m, "nextPageToken") {
                    Some(t) => t,
                    None => {
                        return None;
                    },
                };
                Some(ListResponse { items, next_page_token })
            },
            _ => None,
        }
    }
}

/// The body of a successful single-share lookup.
#[derive(Debug)]
pub struct GetShareResponse {
    pub share: Share,
}

/// Specification-level value of a [`GetShareResponse`].
pub struct GetShareResponseView {
    pub share: ShareView,
}

impl View for GetShareResponse {
    type V = GetShareResponseView;

    open spec fn view(&self) -> GetShareResponseView {
        GetShareResponseView { share: self.share@ }
    }
}

impl GetShareResponse {
    /// The share of the response.
    pub fn share(&self) -> (r: &Share)
        ensures
            r@ == self@.share,
    {
        &self.share
    }
}

impl JsonPayload for GetShareResponse {
    /// A single-share lookup body: an object with a required `share` record.
    open spec fn body_of(s: Seq<char>) -> Option<GetShareResponseView> {
        match json_of_text(s) {
            Some(JsonView::Obj(m)) => match obj_get(m, "share"@) {
                Some(j) => match Share::of_json(j) {
                    Some(share) => Some(GetShareResponseView { share }),
                    None => None,
                },
                None => None,
            },
            _ => None,
        }
    }

    fn parse_body(body: &str) -> (r: Option<Self>) {
        let parsed = match parse_json_text(body) {
            Some(j) => j,
            None => {
                return None;
            },
        };
        match parsed {
            Json::Obj(m) => {
                match obj_get_x(&m, "share") {
                    Some(j) => match Share::from_json(j) {
                        Some(share) => Some(GetShareResponse { share }),
                        None => None,
                    },
                    None => None,
                }
            },
            _ => None,
        }
    }
}

/// The error envelope a sharing server returns for failed requests.
#[derive(Debug)]
pub struct ErrorResponse {
    error_code: String,
    message: String,
}

/// Specification-level value of an [`ErrorResponse`].
pub struct ErrorResponseView {
    pub error_code: Seq<char>,
    pub message: Seq<char>,
}

impl View for ErrorResponse {
    type V = ErrorResponseView;

    closed spec fn view(&self) -> ErrorResponseView {
        ErrorResponseView { error_code: self.error_code@, message: self.message@ }
    }
}

impl ErrorResponse {
    /// An envelope with the given error code and message.
    pub fn new(error_code: String, message: String) -> (r: Self)
        ensures
            r@ == (ErrorResponseView { error_code: error_code@, message: message@ }),
    {
        Self { error_code, message }
    }

    /// The error code of the response.
    pub fn error_code(&self) -> (r: &str)
        ensures
            r@ == self@.error_code,
    {
        self.error_code.as_str()
    }

    /// The message of the response.
    pub fn message(&self) -> (r: &str)
        ensures
            r@ == self@.message,
    {
        self.message.as_str()
    }

    /// A human-readable rendering of the envelope: the bracketed error code
    /// and the message.
    pub fn display_string(&self) -> (r: String)
        ensures
            r@ == "["@ + self@.error_code + "] "@ + self@.message,
    {
        let mut out: Vec<char> = Vec::new();
        out.push('[');
        let mut code = crate::text::chars_vec(self.error_code.as_str());
        out.append(&mut code);
        let mut sep = crate::text::chars_vec("] ");
        out.append(&mut sep);
        let mut msg = crate::text::chars_vec(self.message.as_str());
        out.append(&mut msg);
        proof {
            reveal_strlit("[");
            assert(out@ =~= "["@ + self@.error_code + "] "@ + self@.message);
        }
        crate::text::string_from_chars(&out)
    }
}

impl JsonPayload for ErrorResponse {
    /// An error envelope: an object with required `errorCode` and `message`
    /// strings.
    open spec fn body_of(s: Seq<char>) -> Option<ErrorResponseView> {
        match json_of_text(s) {
            Some(JsonView::Obj(m)) => match (
                req_str_field(m, "errorCode"@),
                req_str_field(m, "message"@),
            ) {
                (Some(error_code), Some(message)) => Some(
                    ErrorResponseView { error_code, message },
                ),
                _ => None,
            },
            _ => None,
        }
    }

    fn parse_body(body: &str) -> (r: Option<Self>) {
        let parsed = match parse_json_text(body) {
            Some(j) => j,
            None => {
                return None;
            },
        };
        match parsed {
            Json::Obj(m) => {
                let error_code = match req_str_field_x(&m, "errorCode") {
                    Some(c) => c,
                    None => {
                        return None;
                    },
                };
                let message = match req_str_field_x(&m, "message") {
                    Some(msg) => msg,
                    None => {
                        return None;
                    },
                };
                Some(ErrorResponse { error_code, message })
            },
            _ => None,
        }
    }
}

/// The version a table-version lookup returns, read from a response header.
#[derive(Debug)]
pub struct TableVersionResponse {
    version: u64,
}

impl View for TableVersionResponse {
    type V = u64;

    closed spec fn view(&self) -> u64 {
        self.version
    }
}

impl TableVersionResponse {
    /// A response carrying the given version.
    pub fn new(version: u64) -> (r: Self)
        ensures
            r@ == version,
    {
        Self { version }
    }

    /// The version of the table.
    pub fn version(&self) -> (r: u64)
        ensures
            r == self@,
    {
        self.version
    }
}

/// One action line of a table metadata, data or changes response: either
/// the parquet response format or the delta response format.
#[derive(Debug)]
pub enum TableAction {
    Parquet(ParquetAction),
    Delta(DeltaAction),
}

/// Specification-level value of a [`TableAction`].
pub enum TableActionView {
    Parquet(crate::parquet::ParquetActionView),
    Delta(DeltaAction),
}

impl View for TableAction {
    type V = TableActionView;

    open spec fn view(&self) -> TableActionView {
        match self {
            TableAction::Parquet(p) => TableActionView::Parquet(p@),
            TableAction::Delta(d) => TableActionView::Delta(*d),
        }
    }
}

impl JsonValue for TableAction {
    /// An action line of the parquet response format. Lines of the delta
    /// response format wrap Delta Lake records this crate does not read;
    /// a [`TableAction::Delta`] is only ever built directly.
    open spec fn of_json(j: JsonView) -> Option<TableActionView> {
        match ParquetAction::of_json(j) {
            Some(p) => Some(TableActionView::Parquet(p)),
            None => None,
        }
    }

    fn from_json(j: &Json) -> (r: Option<Self>) {
        match ParquetAction::from_json(j) {
            Some(p) => Some(TableAction::Parquet(p)),
            None => None,
        }
    }
}

impl TableAction {
    /// Whether the action is in the parquet response format.
    pub fn is_parquet(&self) -> (r: bool)
        ensures
            r == (self is Parquet),
    {
        matches!(self, TableAction::Parquet(_))
    }

    /// Whether the action is in the delta response format.
    pub fn is_delta(&self) -> (r: bool)
        ensures
            r == (self is Delta),
    {
        matches!(self, TableAction::Delta(_))
    }

    /// The parquet action, if the action is one.
    pub fn as_parquet(&self) -> (r: Option<&ParquetAction>)
        ensures
            match r {
                Some(p) => self == TableAction::Parquet(*p),
                None => !(self is Parquet),
            },
    {
        match self {
            TableAction::Parquet(p) => Some(p),
            _ => None,
        }
    }

    /// The delta action, if the action is one.
    pub fn as_delta(&self) -> (r: Option<&DeltaAction>)
        ensures
            match r {
                Some(d) => self == TableAction::Delta(*d),
                None => !(self is Delta),
            },
    {
        match self {
            TableAction::Delta(d) => Some(d),
            _ => None,
        }
    }

    /// The parquet action, handing the action over.
    pub fn to_parquet(self) -> (r: Option<ParquetAction>)
        ensures
            match r {
                Some(p) => self == TableAction::Parquet(p),
                None => !(self is Parquet),
            },
    {
        match self {
            TableAction::Parquet(p) => Some(p),
            _ => None,
        }
    }

    /// The delta action, handing the action over.
    pub fn to_delta(self) -> (r: Option<DeltaAction>)
        ensures
            match r {
                Some(d) => self == TableAction::Delta(d),
                None => !(self is Delta),
            },
    {
        match self {
            TableAction::Delta(d) => Some(d),
            _ => None,
        }
    }
}

/// The actions a response body holds from index `i` on: JSON documents one
/// after another, each an action, separated only by whitespace. The fuel
/// bounds the count; one document holds at least one character, so a fuel of
/// the text's length plus one never runs out.
pub open spec fn actions_from(s: Seq<char>, i: int, fuel: nat) -> Option<Seq<TableActionView>>
    decreases fuel,
{
    if fuel == 0 {
        None
    } else if crate::json::skip_ws(s, i) == s.len() {
        Some(Seq::empty())
    } else {
        match crate::json::parse_value(s, i, crate::json::fuel_for(s.len() as int)) {
            Some((v, j)) => match TableAction::of_json(v) {
                Some(a) => match actions_from(s, j, (fuel - 1) as nat) {
                    Some(rest) => Some(seq![a] + rest),
                    None => None,
                },
                None => None,
            },
            None => None,
        }
    }
}

/// The actions a whole response body holds. Texts longer than
/// [`crate::json::MAX_TEXT_LEN`] hold none.
pub open spec fn actions_of_text(s: Seq<char>) -> Option<Seq<TableActionView>> {
    if s.len() > crate::json::MAX_TEXT_LEN {
        None
    } else {
        actions_from(s, 0, (s.len() + 1) as nat)
    }
}

fn actions_from_x(s: &Vec<char>, i: usize, fuel: usize) -> (r: Option<Vec<TableAction>>)
    requires
        s@.len() <= crate::json::MAX_TEXT_LEN,
        i <= s@.len(),
    ensures
        match r {
            Some(v) => actions_from(s@, i as int, fuel as nat) == Some(views_of(v@)),
            None => actions_from(s@, i as int, fuel as nat) is None,
        },
    decreases fuel,
{
    if fuel == 0 {
        return None;
    }
    let j = crate::json::skip_ws_x(s, i);
    if j == s.len() {
        let empty: Vec<TableAction> = Vec::new();
        proof {
            assert(views_of(empty@) =~= Seq::<TableActionView>::empty());
        }
        return Some(empty);
    }
    let document_fuel: usize = 3 * s.len() + 8;
    match crate::json::parse_value_x(s, i, document_fuel) {
        Some((v, k)) => match TableAction::from_json(&v) {
            Some(a) => match actions_from_x(s, k, fuel - 1) {
                Some(rest) => {
                    let ghost rest_view = rest@;
                    let ghost a_view = a@;
                    let mut out = rest;
                    out.insert(0, a);
                    proof {
                        assert forall|n: int| 0 <= n < out@.len() implies views_of(out@)[n] == (
                        seq![a_view] + views_of(rest_view))[n] by {
                            if n > 0 {
                                assert(out@[n] == rest_view[n - 1]);
                            }
                        }
                        assert(views_of(out@) =~= seq![a_view] + views_of(rest_view));
                    }
                    Some(out)
                },
                None => None,
            },
            None => None,
        },
        None => None,
    }
}

/// Parse the actions of a response body, exactly as [`actions_of_text`]
/// describes.
pub fn parse_actions_text(body: &str) -> (r: Option<Vec<TableAction>>)
    ensures
        match r {
            Some(v) => actions_of_text(body@) == Some(views_of(v@)),
            None => actions_of_text(body@) is None,
        },
{
    let cs = crate::text::chars_vec(body);
    if cs.len() > crate::json::MAX_TEXT_LEN {
        return None;
    }
    actions_from_x(&cs, 0, cs.len() + 1)
}

/// Whether an action is a protocol action, in either format.
pub open spec fn is_protocol_action(a: TableActionView) -> bool {
    match a {
        TableActionView::Parquet(p) => p is Protocol,
        TableActionView::Delta(d) => d is Protocol,
    }
}

/// Whether an action is a metadata action, in either format.
pub open spec fn is_metadata_action(a: TableActionView) -> bool {
    match a {
        TableActionView::Parquet(p) => p is Metadata,
        TableActionView::Delta(d) => d is Metadata,
    }
}

/// Whether an action is a file action, in either format.
pub open spec fn is_file_action(a: TableActionView) -> bool {
    match a {
        TableActionView::Parquet(p) => p is File,
        TableActionView::Delta(d) => d is File,
    }
}

impl TableAction {
    /// Whether the action is a protocol action, in either format.
    pub fn is_protocol_action(&self) -> (r: bool)
        ensures
            r == is_protocol_action(self@),
    {
        match self {
            TableAction::Parquet(p) => p.is_protocol(),
            TableAction::Delta(d) => matches!(d, DeltaAction::Protocol(_)),
        }
    }

    /// Whether the action is a metadata action, in either format.
    pub fn is_metadata_action(&self) -> (r: bool)
        ensures
            r == is_metadata_action(self@),
    {
        match self {
            TableAction::Parquet(p) => p.is_metadata(),
            TableAction::Delta(d) => matches!(d, DeltaAction::Metadata(_)),
        }
    }

    /// Whether the action is a file action, in either format.
    pub fn is_file_action(&self) -> (r: bool)
        ensures
            r == is_file_action(self@),
    {
        match self {
            TableAction::Parquet(p) => p.is_file(),
            TableAction::Delta(d) => matches!(d, DeltaAction::File(_)),
        }
    }
}

/// The body of a table metadata lookup: the protocol action and the
/// metadata action.
#[derive(Debug)]
pub struct TableMetadataResponse {
    pub protocol: TableAction,
    pub metadata: TableAction,
}

/// Specification-level value of a [`TableMetadataResponse`].
pub struct TableMetadataResponseView {
    pub protocol: TableActionView,
    pub metadata: TableActionView,
}

impl View for TableMetadataResponse {
    type V = TableMetadataResponseView;

    open spec fn view(&self) -> TableMetadataResponseView {
        TableMetadataResponseView { protocol: self.protocol@, metadata: self.metadata@ }
    }
}

/// The metadata response a body holds: exactly one protocol action followed
/// by one metadata action.
pub open spec fn table_metadata_of_text(s: Seq<char>) -> Option<TableMetadataResponseView> {
    match actions_of_text(s) {
        Some(actions) => if actions.len() == 2 && is_protocol_action(actions[0])
            && is_metadata_action(actions[1]) {
            Some(TableMetadataResponseView { protocol: actions[0], metadata: actions[1] })
        } else {
            None
        },
        None => None,
    }
}

/// Parse the body of a table metadata lookup, exactly as
/// [`table_metadata_of_text`] describes.
pub fn parse_table_metadata_body(body: &str) -> (r: Option<TableMetadataResponse>)
    ensures
        match r {
            Some(v) => table_metadata_of_text(body@) == Some(v@),
            None => table_metadata_of_text(body@) is None,
        },
{
    let mut actions = match parse_actions_text(body) {
        Some(a) => a,
        None => {
            return None;
        },
    };
    if actions.len() != 2 {
        return None;
    }
    let metadata = match actions.pop() {
        Some(a) => a,
        None => {
            return None;
        },
    };
    let protocol = match actions.pop() {
        Some(a) => a,
        None => {
            return None;
        },
    };
    if !protocol.is_protocol_action() || !metadata.is_metadata_action() {
        return None;
    }
    Some(TableMetadataResponse { protocol, metadata })
}

/// The body of a table data query: the protocol and metadata actions and
/// the file actions in order.
#[derive(Debug)]
pub struct TableDataResponse {
    pub protocol: TableAction,
    pub metadata: TableAction,
    pub files: Vec<TableAction>,
}

/// Specification-level value of a [`TableDataResponse`].
pub struct TableDataResponseView {
    pub protocol: TableActionView,
    pub metadata: TableActionView,
    pub files: Seq<TableActionView>,
}

impl View for TableDataResponse {
    type V = TableDataResponseView;

    open spec fn view(&self) -> TableDataResponseView {
        TableDataResponseView {
            protocol: self.protocol@,
            metadata: self.metadata@,
            files: views_of(self.files@),
        }
    }
}

/// The data response a body holds: one protocol action, one metadata
/// action, then file actions only, in order.
pub open spec fn table_data_of_text(s: Seq<char>) -> Option<TableDataResponseView> {
    match actions_of_text(s) {
        Some(actions) => if actions.len() >= 2 && is_protocol_action(actions[0])
            && is_metadata_action(actions[1]) && (forall|k: int|
            2 <= k < actions.len() ==> is_file_action(#[trigger] actions[k])) {
            Some(
                TableDataResponseView {
                    protocol: actions[0],
                    metadata: actions[1],
                    files: actions.skip(2),
                },
            )
        } else {
            None
        },
        None => None,
    }
}

/// Split a parsed action sequence into protocol, metadata and files, as the
/// data and changes bodies are shaped.
fn split_actions(actions: Vec<TableAction>) -> (r: Option<
    (TableAction, TableAction, Vec<TableAction>),
>)
    ensures
        match r {
            Some((protocol, metadata, files)) => views_of(actions@).len() >= 2 && views_of(
                actions@,
            )[0] == protocol@ && views_of(actions@)[1] == metadata@ && is_protocol_action(protocol@)
                && is_metadata_action(metadata@) && views_of(files@) == views_of(actions@).skip(2)
                && (forall|k: int|
                2 <= k < views_of(actions@).len() ==> is_file_action(
                    #[trigger] views_of(actions@)[k],
                )),
            None => !(views_of(actions@).len() >= 2 && is_protocol_action(views_of(actions@)[0])
                && is_metadata_action(views_of(actions@)[1]) && (forall|k: int|
                2 <= k < views_of(actions@).len() ==> is_file_action(
                    #[trigger] views_of(actions@)[k],
                ))),
        },
{
    let ghost total = views_of(actions@);
    if actions.len() < 2 {
        return None;
    }
    let mut rest = actions;
    let protocol = rest.remove(0);
    let metadata = rest.remove(0);
    proof {
        assert(total[0] == protocol@);
        assert(total[1] == metadata@);
        assert forall|k: int| 0 <= k < rest@.len() implies #[trigger] views_of(rest@)[k] == total[k
            + 2] by {
            assert(rest@[k] == actions@[k + 2]);
        }
        assert(views_of(rest@) =~= total.skip(2));
    }
    if !protocol.is_protocol_action() || !metadata.is_metadata_action() {
        return None;
    }
    let ghost rest_view = views_of(rest@);
    let mut all_files = true;
    let mut i: usize = 0;
    while i < rest.len()
        invariant
            0 <= i <= rest@.len(),
            rest_view == views_of(rest@),
            all_files ==> forall|k: int| 0 <= k < i ==> is_file_action(#[trigger] rest_view[k]),
            !all_files ==> exists|k: int|
                0 <= k < rest@.len() && !is_file_action(#[trigger] rest_view[k]),
        decreases rest@.len() - i,
    {
        if !rest[i].is_file_action() {
            proof {
                assert(!is_file_action(rest_view[i as int]));
            }
            all_files = false;
            i = rest.len();
        } else {
            i += 1;
        }
    }
    if !all_files {
        proof {
            let k = choose|k: int| 0 <= k < rest_view.len() && !is_file_action(rest_view[k]);
            assert(rest_view[k] == total[k + 2]);
            assert(!is_file_action(total[k + 2]));
        }
        return None;
    }
    proof {
        assert forall|k: int| 2 <= k < total.len() implies is_file_action(#[trigger] total[k]) by {
            assert(total.skip(2)[k - 2] == total[k]);
            assert(rest_view[k - 2] == total[k]);
            assert(is_file_action(rest_view[k - 2]));
        }
    }
    Some((protocol, metadata, rest))
}

/// Parse the body of a table data query, exactly as [`table_data_of_text`]
/// describes.
pub fn parse_table_data_body(body: &str) -> (r: Option<TableDataResponse>)
    ensures
        match r {
            Some(v) => table_data_of_text(body@) == Some(v@),
            None => table_data_of_text(body@) is None,
        },
{
    let actions = match parse_actions_text(body) {
        Some(a) => a,
        None => {
            return None;
        },
    };
    match split_actions(actions) {
        Some((protocol, metadata, files)) => Some(TableDataResponse { protocol, metadata, files }),
        None => None,
    }
}

/// The body of a table changes query: the protocol and metadata actions and
/// the file actions in order.
#[derive(Debug)]
pub struct TableChangesResponse {
    pub protocol: TableAction,
    pub metadata: TableAction,
    pub files: Vec<TableAction>,
}

/// Specification-level value of a [`TableChangesResponse`].
pub struct TableChangesResponseView {
    pub protocol: TableActionView,
    pub metadata: TableActionView,
    pub files: Seq<TableActionView>,
}

impl View for TableChangesResponse {
    type V = TableChangesResponseView;

    open spec fn view(&self) -> TableChangesResponseView {
        TableChangesResponseView {
            protocol: self.protocol@,
            metadata: self.metadata@,
            files: views_of(self.files@),
        }
    }
}

/// The changes response a body holds: shaped as a data response.
pub open spec fn table_changes_of_text(s: Seq<char>) -> Option<TableChangesResponseView> {
    match table_data_of_text(s) {
        Some(d) => Some(
            TableChangesResponseView { protocol: d.protocol, metadata: d.metadata, files: d.files },
        ),
        None => None,
    }
}

/// Parse the body of a table changes query, exactly as
/// [`table_changes_of_text`] describes.
pub fn parse_table_changes_body(body: &str) -> (r: Option<TableChangesResponse>)
    ensures
        match r {
            Some(v) => table_changes_of_text(body@) == Some(v@),
            None => table_changes_of_text(body@) is None,
        },
{
    match parse_table_data_body(body) {
        Some(d) => Some(
            TableChangesResponse { protocol: d.protocol, metadata: d.metadata, files: d.files },
        ),
        None => None,
    }
}

impl JsonPayload for TableMetadataResponse {
    /// A metadata response body, exactly as [`table_metadata_of_text`]
    /// describes.
    open spec fn body_of(s: Seq<char>) -> Option<TableMetadataResponseView> {
        table_metadata_of_text(s)
    }

    fn parse_body(body: &str) -> (r: Option<Self>) {
        parse_table_metadata_body(body)
    }
}

impl JsonPayload for TableDataResponse {
    /// A data response body, exactly as [`table_data_of_text`] describes.
    open spec fn body_of(s: Seq<char>) -> Option<TableDataResponseView> {
        table_data_of_text(s)
    }

    fn parse_body(body: &str) -> (r: Option<Self>) {
        parse_table_data_body(body)
    }
}

impl JsonPayload for TableChangesResponse {
    /// A changes response body, exactly as [`table_changes_of_text`]
    /// describes.
    open spec fn body_of(s: Seq<char>) -> Option<TableChangesResponseView> {
        table_changes_of_text(s)
    }

    fn parse_body(body: &str) -> (r: Option<Self>) {
        parse_table_changes_body(body)
    }
}

} // verus!
