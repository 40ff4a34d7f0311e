//! The paginated listing of known users, and the controls to page through it.

use crate::handlers::keyboard_view;
use crate::handlers::EditMessageText;
use crate::handlers::EditMessageTextView;
use crate::handlers::MessageRef;
use crate::handlers::SendMessage;
use crate::handlers::SendMessageView;
use crate::services::user::listing_text;
use crate::services::user::pages_for;
use crate::services::user::UserBlockFilterError;
use crate::services::user::UserServiceError;
use crate::services::user::UserBlockFilter;
use crate::services::user::UserInfoList;
use crate::services::user::UserInfoListView;
use crate::text::integer_text;
use crate::text::integer_to_string;
use crate::text::is_digit;
use crate::text::lemma_integer_text_round_trip;
use crate::text::lemma_natural_text_denotes;
use crate::text::natural_text;
use crate::text::parse_integer;
use vstd::prelude::*;

verus! {

/// What a paging control carries: the page to show and the filter to show it under.
#[derive(Clone, Copy, Debug, PartialEq, Eq, Structural)]
pub struct Page {
    pub number: i64,
    pub block_filter: UserBlockFilter,
}

/// The name of a filter inside a payload.
pub open spec fn filter_name(filter: UserBlockFilter) -> Seq<char> {
    match filter {
        UserBlockFilter::All => "All"@,
        UserBlockFilter::False => "False"@,
        UserBlockFilter::True => "True"@,
    }
}

/// The payload of a page: a JSON object with the page number and the filter's name.
pub open spec fn payload_text(page: Page) -> Seq<char> {
    "{\"number\":"@ + integer_text(page.number as int) + ",\"block_filter\":\""@ + filter_name(
        page.block_filter,
    ) + "\"}"@
}

/// A payload that names no filter: it stands for the page under the filter `All`.
pub open spec fn bare_payload_text(number: i64) -> Seq<char> {
    "{\"number\":"@ + integer_text(number as int) + "}"@
}

/// Whether `text` is a payload of `page`.
pub open spec fn is_payload_of(text: Seq<char>, page: Page) -> bool {
    text == payload_text(page) || (page.block_filter == UserBlockFilter::All && text
        == bare_payload_text(page.number))
}

/// The page that `text` is a payload of, if it is one. A text is the payload of one page
/// at most: see [`lemma_payload_names_one_page`].
pub open spec fn page_of_payload(text: Seq<char>) -> Option<Page> {
    if exists|page: Page| is_payload_of(text, page) {
        Some(choose|page: Page| is_payload_of(text, page))
    } else {
        None
    }
}

/// Whether two texts are the same.
fn same_text(a: &str, b: &str) -> (r: bool)
    ensures
        r == (a@ == b@),
{
    String::from_str(a) == String::from_str(b)
}

impl Page {
    /// The payload that a control carries for this page.
    pub fn encode(&self) -> (r: String)
        ensures
            r@ == payload_text(*self),
    {
        let mut r = String::from_str("{\"number\":");
        let number = integer_to_string(self.number);
        r.append(number.as_str());
        r.append(",\"block_filter\":\"");
        r.append(
            match self.block_filter {
                UserBlockFilter::All => "All",
                UserBlockFilter::False => "False",
                UserBlockFilter::True => "True",
            },
        );
        r.append("\"}");
        r
    }

    /// The payload of this page's number alone.
    fn encode_bare(number: i64) -> (r: String)
        ensures
            r@ == bare_payload_text(number),
    {
        let mut r = String::from_str("{\"number\":");
        let text = integer_to_string(number);
        r.append(text.as_str());
        r.append("}");
        r
    }

    /// Reads a payload back: the page whose payload `data` is, if it is one.
    pub fn decode(data: &str) -> (r: Option<Page>)
        ensures
            r == page_of_payload(data@),
            r matches Some(page) ==> is_payload_of(data@, page),
            r is None ==> forall|page: Page| !is_payload_of(data@, page),
    {
        let r = Self::read(data);
        proof {
            if let Some(page) = r {
                lemma_payload_names_one_page(data@, page, page_of_payload(data@)->0);
            }
        }
        r
    }

    /// Reads a payload: finds the number behind the opening, then holds the text against
    /// each payload that the number can have.
    fn read(data: &str) -> (r: Option<Page>)
        ensures
            r matches Some(page) ==> is_payload_of(data@, page),
            r is None ==> forall|page: Page| !is_payload_of(data@, page),
    {
        let n = data.unicode_len();
        if n <= 10 {
            proof {
                assert forall|page: Page| !is_payload_of(data@, page) by {
                    lemma_payload_shape(page);
                }
            }
            return None;
        }
        let mut k: usize = 10;
        while k < n && numeral_char(data.get_char(k))
            invariant
                10 <= k <= n,
                n == data@.len(),
                forall|j: int| 10 <= j < k ==> is_numeral_char(#[trigger] data@[j]),
            decreases n - k,
        {
            k += 1;
        }
        let run = data.substring_char(10, k);
        let number = match parse_integer(run) {
            Some(number) => number,
            None => {
                proof {
                    assert forall|page: Page| !is_payload_of(data@, page) by {
                        lemma_payload_shape(page);
                        lemma_integer_text_round_trip(page.number as int);
                    }
                }
                return None;
            },
        };
        let bare = Page::encode_bare(number);
        if same_text(bare.as_str(), data) {
            return Some(Page { number, block_filter: UserBlockFilter::All });
        }
        let all = Page { number, block_filter: UserBlockFilter::All };
        if same_text(all.encode().as_str(), data) {
            return Some(all);
        }
        let not_blocked = Page { number, block_filter: UserBlockFilter::False };
        if same_text(not_blocked.encode().as_str(), data) {
            return Some(not_blocked);
        }
        let blocked = Page { number, block_filter: UserBlockFilter::True };
        if same_text(blocked.encode().as_str(), data) {
            return Some(blocked);
        }
        proof {
            assert forall|page: Page| !is_payload_of(data@, page) by {
                lemma_payload_shape(page);
                lemma_integer_text_round_trip(page.number as int);
                lemma_integer_text_round_trip(number as int);
            }
        }
        None
    }
}

/// Whether `c` can stand in a signed decimal numeral.
pub open spec fn is_numeral_char(c: char) -> bool {
    is_digit(c) || c == '-' || c == '+'
}

/// Whether `c` can stand in a signed decimal numeral.
fn numeral_char(c: char) -> (r: bool)
    ensures
        r == is_numeral_char(c),
{
    c == '0' || c == '1' || c == '2' || c == '3' || c == '4' || c == '5' || c == '6' || c == '7'
        || c == '8' || c == '9' || c == '-' || c == '+'
}

/// Where the number stands in a payload: behind the ten characters of the opening, as a run
/// of numeral characters that ends before a character of another kind.
proof fn lemma_payload_shape(page: Page)
    ensures
        ({
            let digits = integer_text(page.number as int);
            let full = payload_text(page);
            let bare = bare_payload_text(page.number);
            &&& digits.len() > 0
            &&& full.len() > 10 + digits.len()
            &&& bare.len() > 10 + digits.len()
            &&& full.subrange(10, 10 + digits.len() as int) == digits
            &&& bare.subrange(10, 10 + digits.len() as int) == digits
            &&& !is_numeral_char(full[10 + digits.len() as int])
            &&& !is_numeral_char(bare[10 + digits.len() as int])
            &&& forall|j: int|
                10 <= j < 10 + digits.len() ==> is_numeral_char(#[trigger] full[j])
            &&& forall|j: int|
                10 <= j < 10 + digits.len() ==> is_numeral_char(#[trigger] bare[j])
        }),
{
    reveal_strlit("{\"number\":");
    reveal_strlit(",\"block_filter\":\"");
    reveal_strlit("}");
    let digits = integer_text(page.number as int);
    let full = payload_text(page);
    let bare = bare_payload_text(page.number);
    let magnitude = if page.number < 0 {
        (-(page.number as int)) as nat
    } else {
        page.number as nat
    };
    lemma_natural_text_denotes(magnitude);
    assert forall|j: int| 0 <= j < digits.len() implies is_numeral_char(#[trigger] digits[j]) by {
        if page.number < 0 {
            if j > 0 {
                assert(digits[j] == natural_text(magnitude)[j - 1]);
            }
        }
    }
    assert(full.subrange(10, 10 + digits.len() as int) =~= digits);
    assert(bare.subrange(10, 10 + digits.len() as int) =~= digits);
    assert(full[10 + digits.len() as int] == ',');
    assert(bare[10 + digits.len() as int] == '}');
    assert forall|j: int| 10 <= j < 10 + digits.len() implies is_numeral_char(
        #[trigger] full[j],
    ) by {
        assert(full[j] == digits[j - 10]);
    }
    assert forall|j: int| 10 <= j < 10 + digits.len() implies is_numeral_char(
        #[trigger] bare[j],
    ) by {
        assert(bare[j] == digits[j - 10]);
    }
}

/// A payload is the payload of one page only, so reading back what `encode` wrote gives the
/// page that was written.
pub proof fn lemma_payload_names_one_page(text: Seq<char>, first: Page, second: Page)
    requires
        is_payload_of(text, first),
        is_payload_of(text, second),
    ensures
        first == second,
{
    lemma_payload_shape(first);
    lemma_payload_shape(second);
    lemma_integer_text_round_trip(first.number as int);
    lemma_integer_text_round_trip(second.number as int);
    let a = integer_text(first.number as int);
    let b = integer_text(second.number as int);
    if a.len() < b.len() {
        assert(is_numeral_char(text[10 + a.len() as int]));
    } else if b.len() < a.len() {
        assert(is_numeral_char(text[10 + b.len() as int]));
    }
    assert(a == b);
    assert(first.number == second.number);
    reveal_strlit("{\"number\":");
    reveal_strlit(",\"block_filter\":\"");
    reveal_strlit("\"}");
    reveal_strlit("}");
    reveal_strlit("All");
    reveal_strlit("False");
    reveal_strlit("True");
    assert(payload_text(first)[10 + a.len() as int] == ',');
    assert(bare_payload_text(first.number)[10 + a.len() as int] == '}');
    assert(payload_text(first).len() == 10 + a.len() + 17 + filter_name(first.block_filter).len()
        + 2);
    assert(payload_text(second).len() == 10 + a.len() + 17 + filter_name(
        second.block_filter,
    ).len() + 2);
}

/// One paging control: what it shows and where it leads.
#[derive(Debug)]
pub struct PageButton {
    pub text: String,
    pub page: Page,
}

/// What a [`PageButton`] holds, as plain values.
pub struct PageButtonView {
    pub text: Seq<char>,
    pub page: Page,
}

impl View for PageButton {
    type V = PageButtonView;

    open spec fn view(&self) -> PageButtonView {
        PageButtonView { text: self.text@, page: self.page }
    }
}

impl PageButton {
    /// The payload that the control carries.
    pub fn data(&self) -> (r: String)
        ensures
            r@ == payload_text(self.page),
    {
        self.page.encode()
    }
}

/// The controls of a row, each as plain values.
pub open spec fn buttons_of(row: Seq<PageButton>) -> Seq<PageButtonView> {
    row.map_values(|button: PageButton| button@)
}

/// The text of the middle control: the page, the number of pages, and in brackets the
/// number of users.
pub open spec fn counter_text(current: int, pages: int, items: int) -> Seq<char> {
    integer_text(current) + "/"@ + integer_text(pages) + " ("@ + integer_text(items) + ")"@
}

/// A control with text `text` that leads to page `number` under `filter`.
pub open spec fn control(text: Seq<char>, number: int, filter: UserBlockFilter) -> PageButtonView {
    PageButtonView { text, page: Page { number: number as i64, block_filter: filter } }
}

/// Zero or one control.
pub open spec fn control_if(shown: bool, button: PageButtonView) -> Seq<PageButtonView> {
    if shown {
        seq![button]
    } else {
        Seq::empty()
    }
}

/// The row of controls under a listing. From the left: the first page, unless the listing
/// is on it; the previous page, past page 2; the counter, which leads to the page shown;
/// the next page, before the last but one; the last page, before it is reached. Every
/// control carries the listing's filter.
pub open spec fn keyboard_row(list: UserInfoListView) -> Seq<PageButtonView> {
    let current = list.page_number;
    let pages = pages_for(list.total_items);
    let filter = list.block_filter;
    control_if(current != 1, control("<<"@, 1, filter)) + control_if(
        current > 2,
        control("<"@, current - 1, filter),
    ) + seq![control(counter_text(current, pages, list.total_items), current, filter)]
        + control_if(current < pages - 1, control(">"@, current + 1, filter)) + control_if(
        current < pages,
        control(">>"@, pages, filter),
    )
}

/// Builds the controls under a listing: one row, as [`keyboard_row`] describes it.
pub fn build_keyboard(list: &UserInfoList) -> (r: Vec<Vec<PageButton>>)
    ensures
        r@.len() == 1,
        buttons_of(r@[0]@) == keyboard_row(list@),
{
    let mut row: Vec<PageButton> = Vec::new();
    let current_page = list.page_number();
    let total_pages = list.total_pages();
    let total_items = list.total_items();
    let block_filter = list.block_filter();
    let ghost view = list@;
    assert(buttons_of(row@) =~= Seq::empty());
    if current_page != 1 {
        let ghost before = row@;
        row.push(PageButton { text: String::from_str("<<"), page: Page { number: 1, block_filter } });
        assert(buttons_of(row@) =~= buttons_of(before).push(control("<<"@, 1, block_filter)));
    }
    if current_page > 2 {
        let ghost before = row@;
        row.push(
            PageButton {
                text: String::from_str("<"),
                page: Page { number: current_page - 1, block_filter },
            },
        );
        assert(buttons_of(row@) =~= buttons_of(before).push(
            control("<"@, current_page - 1, block_filter),
        ));
    }
    let mut counter = integer_to_string(current_page);
    counter.append("/");
    counter.append(integer_to_string(total_pages).as_str());
    counter.append(" (");
    counter.append(integer_to_string(total_items).as_str());
    counter.append(")");
    let ghost before_counter = row@;
    row.push(PageButton { text: counter, page: Page { number: current_page, block_filter } });
    assert(buttons_of(row@) =~= buttons_of(before_counter).push(
        control(
            counter_text(current_page as int, total_pages as int, total_items as int),
            current_page as int,
            block_filter,
        ),
    ));
    if current_page < total_pages - 1 {
        let ghost before = row@;
        row.push(
            PageButton {
                text: String::from_str(">"),
                page: Page { number: current_page + 1, block_filter },
            },
        );
        assert(buttons_of(row@) =~= buttons_of(before).push(
            control(">"@, current_page + 1, block_filter),
        ));
    }
    if current_page < total_pages {
        let ghost before = row@;
        row.push(
            PageButton {
                text: String::from_str(">>"),
                page: Page { number: total_pages, block_filter },
            },
        );
        assert(buttons_of(row@) =~= buttons_of(before).push(
            control(">>"@, total_pages as int, block_filter),
        ));
    }
    assert(buttons_of(row@) =~= keyboard_row(view));
    let mut keyboard: Vec<Vec<PageButton>> = Vec::new();
    keyboard.push(row);
    keyboard
}

/// What the relay reads of a pressed control.
#[derive(Debug)]
pub struct CallbackQuery {
    /// The id under which the press is acknowledged.
    pub id: String,
    /// The payload of the control.
    pub data: Option<String>,
    /// The message that the control stands under.
    pub message: Option<MessageRef>,
}

/// The request to show another page of a listing, in place of the page shown.
#[derive(Debug)]
pub struct PageQuery {
    pub id: String,
    pub chat_id: i64,
    pub message_id: i64,
    pub number: i64,
    pub block_filter: UserBlockFilter,
}

/// What a [`PageQuery`] holds, as plain values.
pub struct PageQueryView {
    pub id: Seq<char>,
    pub chat_id: i64,
    pub message_id: i64,
    pub number: i64,
    pub block_filter: UserBlockFilter,
}

impl View for PageQuery {
    type V = PageQueryView;

    open spec fn view(&self) -> PageQueryView {
        PageQueryView {
            id: self.id@,
            chat_id: self.chat_id,
            message_id: self.message_id,
            number: self.number,
            block_filter: self.block_filter,
        }
    }
}

/// Why a pressed control is no request for a page.
#[derive(Clone, Copy, Debug, PartialEq, Eq, Structural)]
pub enum PageQueryError {
    /// The control carries no payload.
    NoData,
    /// The control stands under no message.
    NoMessage,
    /// The payload is not that of a page.
    ParseData,
}

impl PageQuery {
    /// The page that the query asks for.
    pub open spec fn page(self) -> Page {
        Page { number: self.number, block_filter: self.block_filter }
    }

    /// Reads a pressed control as a request for a page. The payload is looked at first:
    /// there must be one, and it must be the payload of a page. Then the control must
    /// stand under a message, which is the one to replace.
    pub fn try_from(query: CallbackQuery) -> (r: Result<PageQuery, PageQueryError>)
        ensures
            match r {
                Ok(request) => {
                    &&& query.data matches Some(data) && is_payload_of(data@, request.page())
                    &&& query.message == Some(
                        MessageRef { chat_id: request.chat_id, id: request.message_id },
                    )
                    &&& request.id@ == query.id@
                },
                Err(PageQueryError::NoData) => query.data is None,
                Err(PageQueryError::ParseData) => query.data matches Some(data) && forall|page: Page|
                    !is_payload_of(data@, page),
                Err(PageQueryError::NoMessage) => {
                    &&& query.message is None
                    &&& query.data matches Some(data) && exists|page: Page|
                        is_payload_of(data@, page)
                },
            },
    {
        let page = match &query.data {
            Some(data) => match Page::decode(data.as_str()) {
                Some(page) => page,
                None => {
                    return Err(PageQueryError::ParseData);
                },
            },
            None => {
                return Err(PageQueryError::NoData);
            },
        };
        match query.message {
            Some(message) => Ok(
                PageQuery {
                    id: query.id,
                    chat_id: message.chat_id,
                    message_id: message.id,
                    number: page.number,
                    block_filter: page.block_filter,
                },
            ),
            None => Err(PageQueryError::NoMessage),
        }
    }
}

/// How far the showing of a page has come.
#[derive(Debug)]
pub enum ListProgress<'a> {
    /// The request has arrived; nothing was done yet.
    Received,
    /// The directory has returned this page.
    Listed(&'a UserInfoList),
    /// The page was put in place of the one shown before.
    Edited,
}

/// What a [`ListProgress`] holds, as plain values.
pub enum ListProgressView {
    Received,
    Listed(UserInfoListView),
    Edited,
}

impl<'a> View for ListProgress<'a> {
    type V = ListProgressView;

    open spec fn view(&self) -> ListProgressView {
        match *self {
            ListProgress::Received => ListProgressView::Received,
            ListProgress::Listed(list) => ListProgressView::Listed(list@),
            ListProgress::Edited => ListProgressView::Edited,
        }
    }
}

/// What to do next to show a page of the listing.
#[derive(Debug)]
pub enum ListStep {
    /// Fetch this page of the users that pass this filter.
    GetList { page_number: i64, block_filter: UserBlockFilter },
    /// Send this message; the command ends with it.
    SendMessage(SendMessage),
    /// Put this text and these controls in place of those of a message.
    EditMessageText(EditMessageText),
    /// Acknowledge the press of the control; the request ends with it.
    AnswerCallbackQuery { id: String },
    /// Nothing is left to do.
    Done,
}

/// What a [`ListStep`] holds, as plain values.
pub enum ListStepView {
    GetList { page_number: i64, block_filter: UserBlockFilter },
    SendMessage(SendMessageView),
    EditMessageText(EditMessageTextView),
    AnswerCallbackQuery { id: Seq<char> },
    Done,
}

impl View for ListStep {
    type V = ListStepView;

    open spec fn view(&self) -> ListStepView {
        match *self {
            ListStep::GetList { page_number, block_filter } => ListStepView::GetList {
                page_number,
                block_filter,
            },
            ListStep::SendMessage(message) => ListStepView::SendMessage(message@),
            ListStep::EditMessageText(edit) => ListStepView::EditMessageText(edit@),
            ListStep::AnswerCallbackQuery { id } => ListStepView::AnswerCallbackQuery { id: id@ },
            ListStep::Done => ListStepView::Done,
        }
    }
}

/// The next step of a listing command, sent in the chat `chat_id` with the first argument
/// `token`.
///
/// The token names the filter. A token that names none is answered with a notice that
/// holds it, and nothing is listed. Else the first page under the filter is fetched, and
/// sent as HTML with its row of controls.
pub open spec fn list_step(chat_id: i64, token: Option<Seq<char>>, progress: ListProgressView) -> ListStepView {
    match UserBlockFilter::of_token(token) {
        Err(rejected) => ListStepView::SendMessage(
            SendMessageView {
                chat_id,
                text: UserBlockFilterError::message_text(rejected),
                reply_to_message_id: None,
                html: false,
                reply_markup: None,
            },
        ),
        Ok(block_filter) => match progress {
            ListProgressView::Received => ListStepView::GetList { page_number: 1, block_filter },
            ListProgressView::Listed(list) => ListStepView::SendMessage(
                SendMessageView {
                    chat_id,
                    text: listing_text(list.items),
                    reply_to_message_id: None,
                    html: true,
                    reply_markup: Some(seq![keyboard_row(list)]),
                },
            ),
            ListProgressView::Edited => ListStepView::Done,
        },
    }
}

/// The first of the arguments of a command, if it has any.
pub open spec fn first_token(args: Seq<String>) -> Option<Seq<char>> {
    if args.len() > 0 {
        Some(args[0]@)
    } else {
        None
    }
}

/// Says what to do next for a listing command, as [`list_step`] describes it.
pub fn handle_list(chat_id: i64, args: &Vec<String>, progress: ListProgress) -> (r: ListStep)
    ensures
        r@ == list_step(chat_id, first_token(args@), progress@),
{
    let token = if args.len() > 0 {
        Some(&args[0])
    } else {
        None
    };
    let block_filter = match UserBlockFilter::try_from(token) {
        Ok(value) => value,
        Err(err) => {
            return ListStep::SendMessage(
                SendMessage {
                    chat_id,
                    text: err.message(),
                    reply_to_message_id: None,
                    html: false,
                    reply_markup: None,
                },
            );
        },
    };
    match progress {
        ListProgress::Received => ListStep::GetList { page_number: 1, block_filter },
        ListProgress::Listed(users) => {
            let keyboard = build_keyboard(users);
            assert(keyboard_view(keyboard@) =~= seq![keyboard_row(users@)]);
            ListStep::SendMessage(
                SendMessage {
                    chat_id,
                    text: users.render(),
                    reply_to_message_id: None,
                    html: true,
                    reply_markup: Some(keyboard),
                },
            )
        },
        ListProgress::Edited => ListStep::Done,
    }
}

/// The next step in showing another page of a listing.
///
/// The page that the request names is fetched under the filter that the request names.
/// It is put in place of the page shown, as HTML with its row of controls. Then the press
/// of the control is acknowledged.
pub open spec fn page_step(query: PageQueryView, progress: ListProgressView) -> ListStepView {
    match progress {
        ListProgressView::Received => ListStepView::GetList {
            page_number: query.number,
            block_filter: query.block_filter,
        },
        ListProgressView::Listed(list) => ListStepView::EditMessageText(
            EditMessageTextView {
                chat_id: query.chat_id,
                message_id: query.message_id,
                text: listing_text(list.items),
                html: true,
                reply_markup: Some(seq![keyboard_row(list)]),
            },
        ),
        ListProgressView::Edited => ListStepView::AnswerCallbackQuery { id: query.id },
    }
}

/// Says what to do next for a request for another page, as [`page_step`] describes it.
pub fn handle_page_changed(query: &PageQuery, progress: ListProgress) -> (r: ListStep)
    ensures
        r@ == page_step(query@, progress@),
{
    match progress {
        ListProgress::Received => ListStep::GetList {
            page_number: query.number,
            block_filter: query.block_filter,
        },
        ListProgress::Listed(users) => {
            let keyboard = build_keyboard(users);
            assert(keyboard_view(keyboard@) =~= seq![keyboard_row(users@)]);
            ListStep::EditMessageText(
                EditMessageText {
                    chat_id: query.chat_id,
                    message_id: query.message_id,
                    text: users.render(),
                    html: true,
                    reply_markup: Some(keyboard),
                },
            )
        },
        ListProgress::Edited => ListStep::AnswerCallbackQuery { id: query.id.clone() },
    }
}

/// Paging keeps the filter. Every control under a listing carries the listing's filter:
/// the page read back from the payload of any of them names it, and the request for that
/// page fetches under it.
pub proof fn lemma_paging_keeps_filter(list: UserInfoListView, i: int, query: PageQueryView)
    requires
        0 <= i < keyboard_row(list).len(),
        is_payload_of(
            payload_text(keyboard_row(list)[i].page),
            Page { number: query.number, block_filter: query.block_filter },
        ),
    ensures
        query.block_filter == list.block_filter,
        query.number == keyboard_row(list)[i].page.number,
        page_step(query, ListProgressView::Received) == (ListStepView::GetList {
            page_number: keyboard_row(list)[i].page.number,
            block_filter: list.block_filter,
        }),
{
    let page = keyboard_row(list)[i].page;
    assert(page.block_filter == list.block_filter);
    lemma_payload_names_one_page(
        payload_text(page),
        page,
        Page { number: query.number, block_filter: query.block_filter },
    );
}

/// Why a listing was not shown.
#[derive(Debug)]
pub enum UsersError {
    /// The press of the control could not be acknowledged.
    AnswerCallbackQuery,
    /// The page could not be fetched.
    GetList(UserServiceError),
    /// The listing could not be sent, or not be put in place of the one shown.
    SendMessage,
}

/// Says which error the failure of a step comes to; it names what the step was about. A
/// step that asks for nothing fails in no way.
pub fn failure(step: &ListStep) -> (r: Option<UsersError>)
    ensures
        match (step@, r) {
            (
                ListStepView::GetList { page_number, .. },
                Some(UsersError::GetList(UserServiceError::GetList { page_number: refused })),
            ) => refused == page_number,
            (ListStepView::SendMessage(_), Some(UsersError::SendMessage)) => true,
            (ListStepView::EditMessageText(_), Some(UsersError::SendMessage)) => true,
            (ListStepView::AnswerCallbackQuery { .. }, Some(UsersError::AnswerCallbackQuery)) => true,
            (ListStepView::Done, None) => true,
            _ => false,
        },
{
    match step {
        ListStep::GetList { page_number, block_filter: _ } => Some(
            UsersError::GetList(UserServiceError::GetList { page_number: *page_number }),
        ),
        ListStep::SendMessage(_) => Some(UsersError::SendMessage),
        ListStep::EditMessageText(_) => Some(UsersError::SendMessage),
        ListStep::AnswerCallbackQuery { id: _ } => Some(UsersError::AnswerCallbackQuery),
        ListStep::Done => None,
    }
}

} // verus!
