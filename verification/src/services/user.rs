//! The user directory: everyone who has ever written to the bot, with block state.

use crate::text::integer_text;
use crate::text::integer_to_string;
use crate::time::timestamp_text;
use crate::time::Timestamp;
use crate::time::TIMESTAMP_FORMAT;
use vstd::prelude::*;

verus! {

/// Number of users shown on one page of a listing.
pub const ITEMS_PER_PAGE: i64 = 5;

/// The text of an optional string.
pub open spec fn optional_text(value: Option<String>) -> Option<Seq<char>> {
    match value {
        Some(s) => Some(s@),
        None => None,
    }
}

/// Copies an optional string.
fn clone_optional(value: &Option<String>) -> (r: Option<String>)
    ensures
        optional_text(r) == optional_text(*value),
{
    match value {
        Some(s) => Some(s.clone()),
        None => None,
    }
}

/// Which users a listing shows.
#[derive(Clone, Copy, Debug, PartialEq, Eq, Structural)]
pub enum UserBlockFilter {
    /// Everyone.
    All,
    /// Only users that are not blocked.
    False,
    /// Only blocked users.
    True,
}

/// A filter token that names no filter.
#[derive(Debug)]
pub struct UserBlockFilterError(pub String);

impl View for UserBlockFilterError {
    type V = Seq<char>;

    /// The rejected token.
    open spec fn view(&self) -> Seq<char> {
        self.0@
    }
}

impl UserBlockFilterError {
    /// What the admin is told about the rejected token.
    pub open spec fn message_text(token: Seq<char>) -> Seq<char> {
        "unknown filter value: "@ + token
    }

    /// The notice for the admin: a fixed prefix, then the rejected token.
    pub fn message(&self) -> (r: String)
        ensures
            r@ == Self::message_text(self@),
    {
        String::from_str("unknown filter value: ").concat(self.0.as_str())
    }
}

impl UserBlockFilter {
    /// Whether a user with this block state passes the filter.
    pub open spec fn accepts(self, is_blocked: bool) -> bool {
        match self {
            UserBlockFilter::All => true,
            UserBlockFilter::False => !is_blocked,
            UserBlockFilter::True => is_blocked,
        }
    }

    /// Whether a user with this block state passes the filter.
    pub fn passes(&self, is_blocked: bool) -> (r: bool)
        ensures
            r == self.accepts(is_blocked),
    {
        match self {
            UserBlockFilter::All => true,
            UserBlockFilter::False => !is_blocked,
            UserBlockFilter::True => is_blocked,
        }
    }

    /// The `WHERE` clause that selects the users passing the filter.
    pub open spec fn sql_text(self) -> Seq<char> {
        match self {
            UserBlockFilter::All => ""@,
            UserBlockFilter::False => "WHERE is_blocked IS FALSE"@,
            UserBlockFilter::True => "WHERE is_blocked IS TRUE"@,
        }
    }

    /// The `WHERE` clause that selects the users passing the filter; empty for `All`.
    pub fn as_sql(&self) -> (r: &'static str)
        ensures
            r@ == self.sql_text(),
    {
        match self {
            UserBlockFilter::All => "",
            UserBlockFilter::False => "WHERE is_blocked IS FALSE",
            UserBlockFilter::True => "WHERE is_blocked IS TRUE",
        }
    }

    /// The filter that an optional command token names.
    pub open spec fn of_token(token: Option<Seq<char>>) -> Result<UserBlockFilter, Seq<char>> {
        match token {
            None => Ok(UserBlockFilter::All),
            Some(t) => if t == "blocked"@ {
                Ok(UserBlockFilter::True)
            } else if t == "!blocked"@ {
                Ok(UserBlockFilter::False)
            } else {
                Err(t)
            },
        }
    }

    /// Reads the filter token of a listing command: no token means everyone, `blocked` the
    /// blocked users, `!blocked` the others; any other token is rejected and handed back.
    pub fn try_from(value: Option<&String>) -> (r: Result<UserBlockFilter, UserBlockFilterError>)
        ensures
            match (r, Self::of_token(
                match value {
                    Some(s) => Some(s@),
                    None => None,
                },
            )) {
                (Ok(filter), Ok(expected)) => filter == expected,
                (Err(error), Err(token)) => error@ == token,
                _ => false,
            },
    {
        match value {
            None => Ok(UserBlockFilter::All),
            Some(token) => {
                let blocked = String::from_str("blocked");
                let not_blocked = String::from_str("!blocked");
                if *token == blocked {
                    Ok(UserBlockFilter::True)
                } else if *token == not_blocked {
                    Ok(UserBlockFilter::False)
                } else {
                    Err(UserBlockFilterError(token.clone()))
                }
            },
        }
    }
}

/// The statement that fetches one page of the users that pass the filter, newest first;
/// its parameters are the page size and the number of rows to pass over.
pub open spec fn list_statement_text(filter: UserBlockFilter) -> Seq<char> {
    "SELECT * FROM users "@ + filter.sql_text() + " ORDER BY created_at DESC LIMIT $1 OFFSET $2"@
}

/// The statement that counts the users that pass the filter.
pub open spec fn count_statement_text(filter: UserBlockFilter) -> Seq<char> {
    "SELECT COUNT(*) FROM users "@ + filter.sql_text()
}

/// The statement that fetches one page of the users that pass the filter, newest first.
pub fn list_statement(filter: UserBlockFilter) -> (r: String)
    ensures
        r@ == list_statement_text(filter),
{
    let mut r = String::from_str("SELECT * FROM users ");
    r.append(filter.as_sql());
    r.append(" ORDER BY created_at DESC LIMIT $1 OFFSET $2");
    r
}

/// The statement that counts the users that pass the filter.
pub fn count_statement(filter: UserBlockFilter) -> (r: String)
    ensures
        r@ == count_statement_text(filter),
{
    String::from_str("SELECT COUNT(*) FROM users ").concat(filter.as_sql())
}

/// How many rows stand before page `page_number`, where the page can exist: pages count
/// from 1, and the number of rows must fit an `i64`.
pub fn page_offset(page_number: i64) -> (r: Option<i64>)
    ensures
        match r {
            Some(offset) => page_number >= 1 && offset == (page_number - 1) * ITEMS_PER_PAGE,
            None => page_number < 1 || (page_number - 1) * ITEMS_PER_PAGE > i64::MAX,
        },
{
    if page_number < 1 {
        None
    } else if page_number - 1 > i64::MAX / ITEMS_PER_PAGE {
        None
    } else {
        Some((page_number - 1) * ITEMS_PER_PAGE)
    }
}

/// A user as an inbound update names them.
#[derive(Debug)]
pub struct User {
    pub id: i64,
    pub first_name: String,
    pub last_name: Option<String>,
    pub username: Option<String>,
}

/// What a [`User`] holds, as plain values.
pub struct UserView {
    pub id: i64,
    pub first_name: Seq<char>,
    pub last_name: Option<Seq<char>>,
    pub username: Option<Seq<char>>,
}

impl View for User {
    type V = UserView;

    open spec fn view(&self) -> UserView {
        UserView {
            id: self.id,
            first_name: self.first_name@,
            last_name: optional_text(self.last_name),
            username: optional_text(self.username),
        }
    }
}

impl Clone for User {
    fn clone(&self) -> (r: Self)
        ensures
            r@ == self@,
    {
        User {
            id: self.id,
            first_name: self.first_name.clone(),
            last_name: clone_optional(&self.last_name),
            username: clone_optional(&self.username),
        }
    }
}

/// One row of the directory.
#[derive(Debug)]
pub struct UserInfo {
    pub id: i64,
    pub first_name: String,
    pub last_name: Option<String>,
    pub username: Option<String>,
    /// When the user was first seen.
    pub created_at: Timestamp,
    /// When the user was last seen again, if ever.
    pub updated_at: Option<Timestamp>,
    pub is_blocked: bool,
}

/// The time of an optional timestamp.
pub open spec fn optional_micros(value: Option<Timestamp>) -> Option<i64> {
    match value {
        Some(time) => Some(time@),
        None => None,
    }
}

/// What a [`UserInfo`] holds, as plain values; times in microseconds since the Unix epoch.
pub struct UserInfoView {
    pub id: i64,
    pub first_name: Seq<char>,
    pub last_name: Option<Seq<char>>,
    pub username: Option<Seq<char>>,
    pub created_at: i64,
    pub updated_at: Option<i64>,
    pub is_blocked: bool,
}

impl View for UserInfo {
    type V = UserInfoView;

    open spec fn view(&self) -> UserInfoView {
        UserInfoView {
            id: self.id,
            first_name: self.first_name@,
            last_name: optional_text(self.last_name),
            username: optional_text(self.username),
            created_at: self.created_at@,
            updated_at: optional_micros(self.updated_at),
            is_blocked: self.is_blocked,
        }
    }
}

impl Clone for UserInfo {
    fn clone(&self) -> (r: Self)
        ensures
            r@ == self@,
    {
        UserInfo {
            id: self.id,
            first_name: self.first_name.clone(),
            last_name: clone_optional(&self.last_name),
            username: clone_optional(&self.username),
            created_at: self.created_at,
            updated_at: self.updated_at,
            is_blocked: self.is_blocked,
        }
    }
}

/// A first name, followed by a space and the last name where there is one.
pub open spec fn full_name(first_name: Seq<char>, last_name: Option<Seq<char>>) -> Seq<char> {
    match last_name {
        Some(last_name) => first_name + " "@ + last_name,
        None => first_name,
    }
}

/// The link that opens a user's profile by their id.
pub open spec fn user_link(id: i64) -> Seq<char> {
    "tg://user?id="@ + integer_text(id as int)
}

/// The line of a listing for one user, given the two times as text: the id, the full name
/// as a link to the profile, the username in brackets, when the user was first seen and
/// when last, and a mark where the user is blocked.
pub open spec fn info_line(info: UserInfoView, created: Seq<char>, updated: Option<Seq<char>>) -> Seq<
    char,
> {
    "<code>"@ + integer_text(info.id as int) + "</code> "@ + "<a href=\""@ + user_link(info.id)
        + "\">"@ + full_name(info.first_name, info.last_name)
        + "</a>"@ + (match info.username {
        Some(username) => " (@"@ + username + ")"@,
        None => Seq::empty(),
    }) + " "@ + created + (match updated {
        Some(updated) => " "@ + updated,
        None => Seq::empty(),
    }) + (if info.is_blocked {
        " \u{201a}\u{f9}\u{e5}"@
    } else {
        Seq::empty()
    })
}

/// A time as a listing writes it.
pub open spec fn time_text(micros: i64) -> Seq<char> {
    timestamp_text(micros, TIMESTAMP_FORMAT@)->0
}

/// The line of a listing for one user.
pub open spec fn row_text(info: UserInfoView) -> Seq<char> {
    info_line(
        info,
        time_text(info.created_at),
        match info.updated_at {
            Some(updated) => Some(time_text(updated)),
            None => None,
        },
    )
}

/// The text of a listing: the line of each user, each closed by a line feed.
pub open spec fn listing_text(items: Seq<UserInfoView>) -> Seq<char>
    decreases items.len(),
{
    if items.len() == 0 {
        Seq::empty()
    } else {
        listing_text(items.drop_last()) + row_text(items.last()) + "\n"@
    }
}

/// Joins a first name and a last name, where there is one, with a space.
fn join_names(first_name: &String, last_name: &Option<String>) -> (r: String)
    ensures
        r@ == full_name(first_name@, optional_text(*last_name)),
{
    let mut name = first_name.clone();
    match last_name {
        Some(last_name) => {
            name.append(" ");
            name.append(last_name.as_str());
        },
        None => {},
    }
    name
}

impl User {
    /// The first name, followed by a space and the last name where there is one.
    pub fn get_full_name(&self) -> (r: String)
        ensures
            r@ == full_name(self@.first_name, self@.last_name),
    {
        join_names(&self.first_name, &self.last_name)
    }

    /// The link that opens the user's profile by their id.
    pub fn get_link(&self) -> (r: String)
        ensures
            r@ == user_link(self.id),
    {
        String::from_str("tg://user?id=").concat(integer_to_string(self.id).as_str())
    }
}

impl UserInfo {
    /// The first name, followed by a space and the last name where there is one.
    pub fn get_full_name(&self) -> (r: String)
        ensures
            r@ == full_name(self@.first_name, self@.last_name),
    {
        join_names(&self.first_name, &self.last_name)
    }

    /// Writes the line of a listing for this user, with the two times given as text.
    pub fn line(&self, created: &str, updated: Option<&str>) -> (r: String)
        ensures
            r@ == info_line(
                self@,
                created@,
                match updated {
                    Some(text) => Some(text@),
                    None => None,
                },
            ),
    {
        let id = integer_to_string(self.id);
        let mut r = String::from_str("<code>");
        r.append(id.as_str());
        r.append("</code> ");
        r.append("<a href=\"");
        r.append(String::from_str("tg://user?id=").concat(id.as_str()).as_str());
        r.append("\">");
        r.append(self.get_full_name().as_str());
        r.append("</a>");
        let ghost head = r@;
        match &self.username {
            Some(username) => {
                r.append(" (@");
                r.append(username.as_str());
                r.append(")");
                assert(r@ =~= head + (" (@"@ + username@ + ")"@));
            },
            None => {
                assert(r@ =~= head + Seq::<char>::empty());
            },
        }
        r.append(" ");
        r.append(created);
        let ghost middle = r@;
        match updated {
            Some(text) => {
                r.append(" ");
                r.append(text);
                assert(r@ =~= middle + (" "@ + text@));
            },
            None => {
                assert(r@ =~= middle + Seq::<char>::empty());
            },
        }
        let ghost tail = r@;
        if self.is_blocked {
            r.append(" \u{201a}\u{f9}\u{e5}");
        } else {
            assert(r@ =~= tail + Seq::<char>::empty());
        }
        r
    }

    /// Writes the line of a listing for this user.
    pub fn render(&self) -> (r: String)
        ensures
            r@ == row_text(self@),
    {
        let created = self.created_at.text();
        match &self.updated_at {
            Some(time) => {
                let updated = time.text();
                self.line(created.as_str(), Some(updated.as_str()))
            },
            None => self.line(created.as_str(), None),
        }
    }
}

/// The rows of a vector, each as plain values.
pub open spec fn rows_of(items: Seq<UserInfo>) -> Seq<UserInfoView> {
    items.map_values(|item: UserInfo| item@)
}

/// Number of pages that `total_items` users fill: the quotient by the page size, rounded up.
pub open spec fn pages_for(total_items: int) -> int {
    (total_items + ITEMS_PER_PAGE - 1) / (ITEMS_PER_PAGE as int)
}

/// One page of a listing, with what is needed to page on from it.
#[derive(Debug)]
pub struct UserInfoList {
    items: Vec<UserInfo>,
    page_number: i64,
    total_items: i64,
    block_filter: UserBlockFilter,
}

/// What a [`UserInfoList`] holds, as plain values.
pub struct UserInfoListView {
    pub items: Seq<UserInfoView>,
    pub page_number: int,
    pub total_items: int,
    pub block_filter: UserBlockFilter,
}

impl View for UserInfoList {
    type V = UserInfoListView;

    closed spec fn view(&self) -> UserInfoListView {
        UserInfoListView {
            items: rows_of(self.items@),
            page_number: self.page_number as int,
            total_items: self.total_items as int,
            block_filter: self.block_filter,
        }
    }
}

impl UserInfoList {
    /// A page holding `items`, out of `total_items` users that pass `block_filter`.
    pub fn new(
        items: Vec<UserInfo>,
        page_number: i64,
        total_items: i64,
        block_filter: UserBlockFilter,
    ) -> (r: Self)
        ensures
            r@ == (UserInfoListView {
                items: rows_of(items@),
                page_number: page_number as int,
                total_items: total_items as int,
                block_filter,
            }),
    {
        UserInfoList { items, page_number, total_items, block_filter }
    }

    /// The number of the page, counted from 1.
    pub fn page_number(&self) -> (r: i64)
        ensures
            r == self@.page_number,
    {
        self.page_number
    }

    /// How many pages the listing has.
    pub fn total_pages(&self) -> (r: i64)
        ensures
            r == pages_for(self@.total_items),
    {
        let total: i64 = self.total_items;
        if total < 0 {
            // Between -4 and -1 the rounded-up quotient is 0; below that it is negative.
            let below: u64 = ((-(total + 1)) as u64) + 1;
            let pages: u64 = below / 5;
            -(pages as i64)
        } else {
            let full: i64 = total / 5;
            if total % 5 > 0 {
                full + 1
            } else {
                full
            }
        }
    }

    /// Writes the page: the line of each user, each closed by a line feed.
    pub fn render(&self) -> (r: String)
        ensures
            r@ == listing_text(self@.items),
    {
        let mut r = String::new();
        let mut i: usize = 0;
        let ghost rows = rows_of(self.items@);
        assert(rows.take(0) =~= Seq::empty());
        while i < self.items.len()
            invariant
                i <= self.items.len(),
                rows == rows_of(self.items@),
                r@ == listing_text(rows.take(i as int)),
            decreases self.items.len() - i,
        {
            let line = self.items[i].render();
            assert(rows.take(i + 1).drop_last() =~= rows.take(i as int));
            assert(rows.take(i + 1).last() == self.items@[i as int]@);
            r.append(line.as_str());
            r.append("\n");
            i += 1;
        }
        assert(rows.take(i as int) =~= rows);
        r
    }

    /// The users on the page.
    pub fn items(&self) -> (r: &Vec<UserInfo>)
        ensures
            rows_of(r@) == self@.items,
    {
        &self.items
    }

    /// How many users pass the filter, over all pages.
    pub fn total_items(&self) -> (r: i64)
        ensures
            r == self@.total_items,
    {
        self.total_items
    }

    /// The filter the listing was made with.
    pub fn block_filter(&self) -> (r: UserBlockFilter)
        ensures
            r == self@.block_filter,
    {
        self.block_filter
    }
}

/// Why the directory refused. Each variant carries what the refused operation was about.
#[derive(Debug)]
pub enum UserServiceError {
    /// The user could not be added.
    CreateUser { user: User },
    /// The page could not be fetched.
    GetList { page_number: i64 },
    /// The block state could not be set.
    SetBlock { user_id: i64, value: bool },
    /// The directory has no such user.
    UnknownUser { user_id: i64 },
}

/// Whether the directory `rows` knows the user `id`.
pub open spec fn has_user(rows: Seq<UserInfoView>, id: i64) -> bool {
    exists|i: int| 0 <= i < rows.len() && (#[trigger] rows[i]).id == id
}

/// Where the user `id` stands in the directory `rows`.
pub open spec fn position_of(rows: Seq<UserInfoView>, id: i64) -> int {
    choose|i: int| 0 <= i < rows.len() && (#[trigger] rows[i]).id == id
}

/// Whether no two rows are of the same user.
pub open spec fn ids_unique(rows: Seq<UserInfoView>) -> bool {
    forall|i: int, j: int| 0 <= i < j < rows.len() ==> (#[trigger] rows[i]).id != (#[trigger] rows[j]).id
}

/// Whether the rows stand newest first: no row was created before one that follows it.
pub open spec fn newest_first(rows: Seq<UserInfoView>) -> bool {
    forall|i: int, j: int|
        0 <= i < j < rows.len() ==> (#[trigger] rows[i]).created_at >= (#[trigger] rows[j]).created_at
}

/// Whether `rows` is a directory: one row for each user, newest first.
pub open spec fn directory_wf(rows: Seq<UserInfoView>) -> bool {
    ids_unique(rows) && newest_first(rows)
}

/// How many of the rows were created after `now`: where a row created at `now` goes.
pub open spec fn rank(rows: Seq<UserInfoView>, now: i64) -> int
    decreases rows.len(),
{
    if rows.len() == 0 {
        0
    } else {
        rank(rows.drop_last(), now) + (if rows.last().created_at > now {
            1int
        } else {
            0int
        })
    }
}

/// The row of a user seen for the first time at `now`.
pub open spec fn created_row(user: UserView, now: i64) -> UserInfoView {
    UserInfoView {
        id: user.id,
        first_name: user.first_name,
        last_name: user.last_name,
        username: user.username,
        created_at: now,
        updated_at: None,
        is_blocked: false,
    }
}

/// The row of a known user seen again at `now`: the names as they are now.
pub open spec fn updated_row(row: UserInfoView, user: UserView, now: i64) -> UserInfoView {
    UserInfoView {
        first_name: user.first_name,
        last_name: user.last_name,
        username: user.username,
        updated_at: Some(now),
        ..row
    }
}

/// The directory after the user `user` was seen at `now`: a known user's row is brought up
/// to date where it stands; an unknown user gets a row, before the rows that are not newer.
pub open spec fn after_sighting(rows: Seq<UserInfoView>, user: UserView, now: i64) -> Seq<UserInfoView> {
    if has_user(rows, user.id) {
        let i = position_of(rows, user.id);
        rows.update(i, updated_row(rows[i], user, now))
    } else {
        rows.insert(rank(rows, now), created_row(user, now))
    }
}

/// The directory after the block state of the user `id` was set to `value`; unchanged
/// where the user is not known.
pub open spec fn with_block(rows: Seq<UserInfoView>, id: i64, value: bool) -> Seq<UserInfoView> {
    if has_user(rows, id) {
        let i = position_of(rows, id);
        rows.update(i, UserInfoView { is_blocked: value, ..rows[i] })
    } else {
        rows
    }
}

/// The rows that pass the filter, in their order.
pub open spec fn matching(rows: Seq<UserInfoView>, filter: UserBlockFilter) -> Seq<UserInfoView>
    decreases rows.len(),
{
    if rows.len() == 0 {
        Seq::empty()
    } else {
        matching(rows.drop_last(), filter) + (if filter.accepts(rows.last().is_blocked) {
            seq![rows.last()]
        } else {
            Seq::empty()
        })
    }
}

/// Where page `page_number` begins among `count` rows: behind the pages before it, or at
/// the end where there are not so many rows.
pub open spec fn page_start(page_number: int, count: int) -> int {
    vstd::math::min((page_number - 1) * ITEMS_PER_PAGE, count)
}

/// Where page `page_number` ends among `count` rows.
pub open spec fn page_end(page_number: int, count: int) -> int {
    vstd::math::min(page_number * ITEMS_PER_PAGE, count)
}

/// The rows on page `page_number` of the users that pass the filter. Pages count from 1;
/// a page that does not exist holds no rows.
pub open spec fn page_items(rows: Seq<UserInfoView>, page_number: int, filter: UserBlockFilter) -> Seq<
    UserInfoView,
> {
    let all = matching(rows, filter);
    if page_number < 1 {
        Seq::empty()
    } else {
        all.subrange(page_start(page_number, all.len() as int), page_end(page_number, all.len() as int))
    }
}

/// A sorted directory splits at `rank`: the rows before it are newer than `now`, the rows
/// from it on are not.
pub proof fn lemma_rank_splits(rows: Seq<UserInfoView>, now: i64)
    requires
        newest_first(rows),
    ensures
        0 <= rank(rows, now) <= rows.len(),
        forall|j: int| 0 <= j < rank(rows, now) ==> (#[trigger] rows[j]).created_at > now,
        forall|j: int| rank(rows, now) <= j < rows.len() ==> (#[trigger] rows[j]).created_at <= now,
    decreases rows.len(),
{
    if rows.len() > 0 {
        let front = rows.drop_last();
        assert forall|i: int, j: int| 0 <= i < j < front.len() implies (#[trigger] front[i]).created_at
            >= (#[trigger] front[j]).created_at by {
            assert(front[i] == rows[i]);
            assert(front[j] == rows[j]);
        }
        lemma_rank_splits(front, now);
        let k = rank(front, now);
        assert forall|j: int| 0 <= j < k implies (#[trigger] rows[j]).created_at > now by {
            assert(front[j] == rows[j]);
        }
        assert forall|j: int| k <= j < front.len() implies (#[trigger] rows[j]).created_at <= now by {
            assert(front[j] == rows[j]);
        }
        if rows.last().created_at > now {
            if k < front.len() {
                assert(rows[k].created_at >= rows[rows.len() - 1].created_at);
            }
        }
    }
}

/// The user directory held in memory: one row for each user, newest first.
#[derive(Debug)]
pub struct UserService {
    users: Vec<UserInfo>,
}

impl View for UserService {
    type V = Seq<UserInfoView>;

    closed spec fn view(&self) -> Seq<UserInfoView> {
        rows_of(self.users@)
    }
}

impl UserService {
    /// Whether the directory is valid: see [`directory_wf`]; and its rows can be counted
    /// in an `i64`.
    pub open spec fn wf(&self) -> bool {
        directory_wf(self@) && self@.len() <= i64::MAX
    }

    /// An empty directory.
    pub fn new() -> (r: Self)
        ensures
            r@ == Seq::<UserInfoView>::empty(),
            r.wf(),
    {
        let r = UserService { users: Vec::new() };
        assert(r@ =~= Seq::<UserInfoView>::empty());
        r
    }

    /// Where the user `user_id` stands in the directory.
    fn position(&self, user_id: i64) -> (r: Option<usize>)
        requires
            self.wf(),
        ensures
            r is Some == has_user(self@, user_id),
            r matches Some(i) ==> i == position_of(self@, user_id) && i < self.users@.len(),
    {
        let mut i: usize = 0;
        while i < self.users.len()
            invariant
                i <= self.users.len(),
                self.wf(),
                forall|j: int| 0 <= j < i ==> (#[trigger] self@[j]).id != user_id,
            decreases self.users.len() - i,
        {
            if self.users[i].id == user_id {
                proof {
                    assert(self@[i as int].id == user_id);
                    let k = position_of(self@, user_id);
                    if k < i {
                        assert(self@[k].id != self@[i as int].id);
                    } else if k > i {
                        assert(self@[i as int].id != self@[k].id);
                    }
                }
                return Some(i);
            }
            i += 1;
        }
        None
    }

    /// Whether the directory knows the user.
    pub fn is_exists(&self, user_id: i64) -> (r: bool)
        requires
            self.wf(),
        ensures
            r == has_user(self@, user_id),
    {
        self.position(user_id).is_some()
    }

    /// Whether the user is blocked. A user that the directory does not know is an error.
    pub fn is_blocked(&self, user_id: i64) -> (r: Result<bool, UserServiceError>)
        requires
            self.wf(),
        ensures
            match r {
                Ok(blocked) => has_user(self@, user_id) && blocked == self@[position_of(
                    self@,
                    user_id,
                )].is_blocked,
                Err(UserServiceError::UnknownUser { user_id: unknown }) => !has_user(self@, user_id)
                    && unknown == user_id,
                Err(_) => false,
            },
    {
        match self.position(user_id) {
            Some(i) => Ok(self.users[i].is_blocked),
            None => Err(UserServiceError::UnknownUser { user_id }),
        }
    }

    /// Sets the block state of a user, and says whether the directory knows the user.
    pub fn set_block(&mut self, user_id: i64, value: bool) -> (r: bool)
        requires
            old(self).wf(),
        ensures
            final(self).wf(),
            final(self)@ == with_block(old(self)@, user_id, value),
            r == has_user(old(self)@, user_id),
    {
        match self.position(user_id) {
            Some(i) => {
                let ghost before = self@;
                let mut row = self.users[i].clone();
                row.is_blocked = value;
                self.users.set(i, row);
                assert(self@ =~= before.update(
                    i as int,
                    UserInfoView { is_blocked: value, ..before[i as int] },
                ));
                true
            },
            None => false,
        }
    }

    /// Blocks a user, and says whether the directory knows the user.
    pub fn block(&mut self, user_id: i64) -> (r: bool)
        requires
            old(self).wf(),
        ensures
            final(self).wf(),
            final(self)@ == with_block(old(self)@, user_id, true),
            r == has_user(old(self)@, user_id),
    {
        self.set_block(user_id, true)
    }

    /// Lifts the block of a user, and says whether the directory knows the user.
    pub fn unblock(&mut self, user_id: i64) -> (r: bool)
        requires
            old(self).wf(),
        ensures
            final(self).wf(),
            final(self)@ == with_block(old(self)@, user_id, false),
            r == has_user(old(self)@, user_id),
    {
        self.set_block(user_id, false)
    }

    /// Adds the row of a user that the directory does not know yet.
    fn create(&mut self, user: User, now: Timestamp)
        requires
            old(self).wf(),
            !has_user(old(self)@, user.id),
            old(self)@.len() < i64::MAX,
        ensures
            final(self).wf(),
            final(self)@ == old(self)@.insert(rank(old(self)@, now@), created_row(user@, now@)),
    {
        let ghost before = self@;
        let mut place: usize = 0;
        let mut i: usize = 0;
        assert(before.take(0) =~= Seq::empty());
        while i < self.users.len()
            invariant
                i <= self.users.len(),
                self@ == before,
                place <= i,
                place as int == rank(before.take(i as int), now@),
            decreases self.users.len() - i,
        {
            assert(before.take(i + 1).drop_last() =~= before.take(i as int));
            assert(before.take(i + 1).last() == self.users@[i as int]@);
            if self.users[i].created_at.micros() > now.micros() {
                place += 1;
            }
            i += 1;
        }
        assert(before.take(i as int) =~= before);
        let row = UserInfo {
            id: user.id,
            first_name: user.first_name,
            last_name: user.last_name,
            username: user.username,
            created_at: now,
            updated_at: None,
            is_blocked: false,
        };
        self.users.insert(place, row);
        proof {
            let after = before.insert(place as int, created_row(user@, now@));
            assert(self@ =~= after);
            lemma_rank_splits(before, now@);
            assert forall|a: int, b: int| 0 <= a < b < after.len() implies (#[trigger] after[a]).id != (
            #[trigger] after[b]).id && after[a].created_at >= after[b].created_at by {
                let a0 = if a < place {
                    a
                } else {
                    a - 1
                };
                let b0 = if b < place {
                    b
                } else {
                    b - 1
                };
                if a != place {
                    assert(after[a] == before[a0]);
                }
                if b != place {
                    assert(after[b] == before[b0]);
                }
                if a != place && b != place {
                    assert(before[a0].id != before[b0].id);
                    assert(before[a0].created_at >= before[b0].created_at);
                }
            }
        }
    }

    /// Brings the row at `i` up to date with how the user is named now.
    fn update(&mut self, i: usize, user: User, now: Timestamp)
        requires
            old(self).wf(),
            i < old(self)@.len(),
            old(self)@[i as int].id == user.id,
        ensures
            final(self).wf(),
            final(self)@ == old(self)@.update(
                i as int,
                updated_row(old(self)@[i as int], user@, now@),
            ),
    {
        let ghost before = self@;
        let row = UserInfo {
            id: self.users[i].id,
            first_name: user.first_name,
            last_name: user.last_name,
            username: user.username,
            created_at: self.users[i].created_at,
            updated_at: Some(now),
            is_blocked: self.users[i].is_blocked,
        };
        self.users.set(i, row);
        assert(self@ =~= before.update(i as int, updated_row(before[i as int], user@, now@)));
    }

    /// Records that a user was seen at `now`: see [`after_sighting`]. A directory that
    /// holds as many rows as an `i64` can count takes no new user, and hands the user back.
    pub fn save(&mut self, user: User, now: Timestamp) -> (r: Result<(), UserServiceError>)
        requires
            old(self).wf(),
        ensures
            final(self).wf(),
            match r {
                Ok(()) => final(self)@ == after_sighting(old(self)@, user@, now@),
                Err(UserServiceError::CreateUser { user: refused }) => refused@ == user@
                    && final(self)@ == old(self)@,
                Err(_) => false,
            },
            r is Err <==> !has_user(old(self)@, user.id) && old(self)@.len() == i64::MAX,
    {
        match self.position(user.id) {
            Some(i) => {
                self.update(i, user, now);
                Ok(())
            },
            None => {
                if self.users.len() as u128 >= 9223372036854775807u128 {
                    Err(UserServiceError::CreateUser { user })
                } else {
                    self.create(user, now);
                    Ok(())
                }
            },
        }
    }

    /// How many users pass the filter.
    pub fn count(&self, block_filter: UserBlockFilter) -> (r: i64)
        requires
            self.wf(),
        ensures
            r == matching(self@, block_filter).len(),
    {
        let mut seen: i64 = 0;
        let mut i: usize = 0;
        assert(self@.take(0) =~= Seq::empty());
        while i < self.users.len()
            invariant
                i <= self.users.len(),
                self.wf(),
                0 <= seen <= i,
                seen as int == matching(self@.take(i as int), block_filter).len(),
            decreases self.users.len() - i,
        {
            assert(self@.take(i + 1).drop_last() =~= self@.take(i as int));
            assert(self@.take(i + 1).last() == self.users@[i as int]@);
            if block_filter.passes(self.users[i].is_blocked) {
                seen += 1;
            }
            i += 1;
        }
        assert(self@.take(i as int) =~= self@);
        seen
    }

    /// One page of the users that pass the filter, with their number over all pages.
    pub fn get_list(&self, page_number: i64, block_filter: UserBlockFilter) -> (r: UserInfoList)
        requires
            self.wf(),
        ensures
            r@ == (UserInfoListView {
                items: page_items(self@, page_number as int, block_filter),
                page_number: page_number as int,
                total_items: matching(self@, block_filter).len() as int,
                block_filter,
            }),
    {
        let total_items = self.count(block_filter);
        let mut items: Vec<UserInfo> = Vec::new();
        if page_number >= 1 {
            let start: i128 = (page_number as i128 - 1) * 5;
            let end: i128 = start + 5;
            let mut seen: i128 = 0;
            let mut i: usize = 0;
            assert(self@.take(0) =~= Seq::empty());
            assert(rows_of(items@) =~= Seq::empty());
            while i < self.users.len()
                invariant
                    i <= self.users.len(),
                    self.wf(),
                    start == (page_number - 1) * ITEMS_PER_PAGE,
                    end == page_number * ITEMS_PER_PAGE,
                    page_number >= 1,
                    0 <= seen <= i,
                    seen as int == matching(self@.take(i as int), block_filter).len(),
                    rows_of(items@) == matching(self@.take(i as int), block_filter).subrange(
                        page_start(page_number as int, seen as int),
                        page_end(page_number as int, seen as int),
                    ),
                decreases self.users.len() - i,
            {
                let ghost before = matching(self@.take(i as int), block_filter);
                assert(self@.take(i + 1).drop_last() =~= self@.take(i as int));
                assert(self@.take(i + 1).last() == self.users@[i as int]@);
                if block_filter.passes(self.users[i].is_blocked) {
                    let ghost shown = rows_of(items@);
                    if start <= seen && seen < end {
                        items.push(self.users[i].clone());
                        assert(rows_of(items@) =~= shown.push(self.users@[i as int]@));
                    }
                    seen += 1;
                    assert(rows_of(items@) =~= before.push(self.users@[i as int]@).subrange(
                        page_start(page_number as int, seen as int),
                        page_end(page_number as int, seen as int),
                    ));
                } else {
                    assert(before + Seq::<UserInfoView>::empty() =~= before);
                }
                i += 1;
            }
            assert(self@.take(i as int) =~= self@);
        } else {
            assert(rows_of(items@) =~= Seq::empty());
        }
        UserInfoList::new(items, page_number, total_items, block_filter)
    }
}

/// How many rows the user `id` has.
pub open spec fn rows_of_user(rows: Seq<UserInfoView>, id: i64) -> nat
    decreases rows.len(),
{
    if rows.len() == 0 {
        0
    } else {
        rows_of_user(rows.drop_last(), id) + (if rows.last().id == id {
            1nat
        } else {
            0nat
        })
    }
}

/// Counting the rows of a user of whom only the row at `i` can be.
proof fn lemma_rows_of_user_single(rows: Seq<UserInfoView>, id: i64, i: int)
    requires
        forall|j: int| 0 <= j < rows.len() && j != i ==> (#[trigger] rows[j]).id != id,
    ensures
        rows_of_user(rows, id) == (if 0 <= i < rows.len() && rows[i].id == id {
            1nat
        } else {
            0nat
        }),
    decreases rows.len(),
{
    if rows.len() > 0 {
        let front = rows.drop_last();
        assert forall|j: int| 0 <= j < front.len() && j != i implies (#[trigger] front[j]).id
            != id by {
            assert(front[j] == rows[j]);
        }
        lemma_rows_of_user_single(front, id, i);
        if 0 <= i < front.len() {
            assert(front[i] == rows[i]);
        }
    }
}

/// Seeing a user keeps the directory valid and leaves the user with one row in it: a new
/// row for a user not known before, else the row the user had, with the names as they
/// are now and the time of this sighting. The rows of the other users stay as they are.
pub proof fn lemma_after_sighting(rows: Seq<UserInfoView>, user: UserView, now: i64)
    requires
        directory_wf(rows),
    ensures
        ({
            let after = after_sighting(rows, user, now);
            let row = after[position_of(after, user.id)];
            &&& directory_wf(after)
            &&& has_user(after, user.id)
            &&& rows_of_user(after, user.id) == 1
            &&& row == (if has_user(rows, user.id) {
                updated_row(rows[position_of(rows, user.id)], user, now)
            } else {
                created_row(user, now)
            })
            &&& after.len() == rows.len() + (if has_user(rows, user.id) {
                0int
            } else {
                1int
            })
            &&& forall|id: i64|
                id != user.id ==> has_user(after, id) == has_user(rows, id) && (has_user(rows, id)
                    ==> after[position_of(after, id)] == rows[position_of(rows, id)])
        }),
{
    let after = after_sighting(rows, user, now);
    let place = if has_user(rows, user.id) {
        position_of(rows, user.id)
    } else {
        lemma_rank_splits(rows, now);
        rank(rows, now)
    };
    // Where the row at `a` of `after` stood in `rows`.
    let origin = |a: int|
        if has_user(rows, user.id) || a < place {
            a
        } else {
            a - 1
        };
    assert forall|a: int| 0 <= a < after.len() && a != place implies #[trigger] after[a]
        == rows[origin(a)] && 0 <= origin(a) < rows.len() by {}
    assert(after[place].id == user.id);
    assert(after[place].created_at == if has_user(rows, user.id) {
        rows[place].created_at
    } else {
        now
    });
    assert forall|a: int, b: int| 0 <= a < b < after.len() implies (#[trigger] after[a]).id != (
    #[trigger] after[b]).id && after[a].created_at >= after[b].created_at by {
        if a != place {
            assert(after[a] == rows[origin(a)]);
        }
        if b != place {
            assert(after[b] == rows[origin(b)]);
        }
        if a != place && b != place {
            assert(rows[origin(a)].id != rows[origin(b)].id);
        }
        if has_user(rows, user.id) {
            assert(rows[a].id != rows[b].id);
            assert(rows[a].created_at >= rows[b].created_at);
        }
    }
    assert(has_user(after, user.id));
    let found = position_of(after, user.id);
    if found < place {
        assert(after[found].id != after[place].id);
    } else if found > place {
        assert(after[place].id != after[found].id);
    }
    assert forall|j: int| 0 <= j < after.len() && j != place implies (#[trigger] after[j]).id
        != user.id by {
        if j < place {
            assert(after[j].id != after[place].id);
        } else {
            assert(after[place].id != after[j].id);
        }
    }
    lemma_rows_of_user_single(after, user.id, place);
    assert forall|id: i64| id != user.id implies has_user(after, id) == has_user(rows, id) && (
    has_user(rows, id) ==> after[position_of(after, id)] == rows[position_of(rows, id)]) by {
        if has_user(rows, id) {
            let i = position_of(rows, id);
            let a = if has_user(rows, user.id) || i < place {
                i
            } else {
                i + 1
            };
            assert(after[a] == rows[i]);
            assert(has_user(after, id));
        }
        if has_user(after, id) {
            let a = position_of(after, id);
            assert(after[a] == rows[origin(a)]);
            assert(has_user(rows, id));
            let i = position_of(rows, id);
            if i < origin(a) {
                assert(rows[i].id != rows[origin(a)].id);
            } else if i > origin(a) {
                assert(rows[origin(a)].id != rows[i].id);
            }
        }
    }
}

/// Seeing the same user twice, under the same names, leaves one row for the user: the
/// names, the time of the first sighting on record and the block state are those after the
/// first of the two sightings, and the row says that the user was last seen at the second.
pub proof fn lemma_sighting_twice(rows: Seq<UserInfoView>, user: UserView, first: i64, second: i64)
    requires
        directory_wf(rows),
    ensures
        ({
            let once = after_sighting(rows, user, first);
            let twice = after_sighting(once, user, second);
            let row = twice[position_of(twice, user.id)];
            let before = once[position_of(once, user.id)];
            &&& directory_wf(twice)
            &&& twice.len() == once.len()
            &&& rows_of_user(twice, user.id) == 1
            &&& row == (UserInfoView { updated_at: Some(second), ..before })
            &&& row.first_name == user.first_name
            &&& row.last_name == user.last_name
            &&& row.username == user.username
        }),
{
    lemma_after_sighting(rows, user, first);
    lemma_after_sighting(after_sighting(rows, user, first), user, second);
}

/// A page holds no more rows than a page takes. A page before the first or behind the
/// last holds none; every page from the first to the last holds some, and every one
/// before the last is full.
pub proof fn lemma_page_bounds(rows: Seq<UserInfoView>, page_number: int, filter: UserBlockFilter)
    ensures
        ({
            let count = matching(rows, filter).len() as int;
            let items = page_items(rows, page_number, filter);
            &&& items.len() <= ITEMS_PER_PAGE
            &&& page_number < 1 || page_number > pages_for(count) ==> items.len() == 0
            &&& 1 <= page_number <= pages_for(count) ==> items.len() > 0
            &&& 1 <= page_number < pages_for(count) ==> items.len() == ITEMS_PER_PAGE
        }),
{
}

} // verus!
