use crate::db::DbError;
use crate::image_storage::{ImageStorage, SaveImageError};
use std::collections::HashMap;
use vstd::prelude::*;

verus! {

broadcast use {
    vstd::std_specs::hash::axiom_i32_obeys_hash_table_key_model,
    vstd::std_specs::hash::axiom_random_state_builds_valid_hashers,
    vstd::std_specs::hash::axiom_contains_deref_key,
    vstd::std_specs::hash::axiom_maps_deref_key_to_value,
    vstd::std_specs::hash::axiom_deref_key_removed,
};

/// How a page of the feed is sorted.
#[derive(Debug, Clone, Copy, PartialEq, Eq, Structural)]
pub enum PostsListOrder {
    MoreLikesFirst,
    ModeDislikesFirst,
    NewFirst,
}

/// Which page of the feed to show, how long a page is, and its order.
#[derive(Debug, Clone, Copy, PartialEq, Eq, Structural)]
pub struct PostsListConfig {
    pub page: u32,
    pub per_page: u32,
    pub order: PostsListOrder,
}

/// The page shown when the request names none.
pub fn default_list_conf_page() -> (page: u32)
    ensures
        page == 1,
{
    1
}

/// The page length used when the request names none.
pub fn default_list_conf_per_page() -> (per_page: u32)
    ensures
        per_page == 5,
{
    5
}

/// The order used when the request names none: newest first.
pub fn default_list_conf_order() -> (order: PostsListOrder)
    ensures
        order == PostsListOrder::NewFirst,
{
    PostsListOrder::NewFirst
}

/// A user's reaction to a post.
#[derive(Debug, Clone, Copy, PartialEq, Eq, Structural)]
pub enum RateKind {
    Like,
    Dislike,
}

/// A post of the feed. `created_at` is the creation time in microseconds since
/// the Unix epoch (UTC), as the database reported it.
#[derive(Debug)]
pub struct Post {
    pub id: i32,
    pub created_at: i64,
    pub text: String,
    pub image_url: String,
    pub likes_quantity: u32,
    pub dislikes_quantity: u32,
}

impl Clone for Post {
    fn clone(&self) -> (copy: Post)
        ensures
            copy == *self,
    {
        Post {
            id: self.id,
            created_at: self.created_at,
            text: self.text.clone(),
            image_url: self.image_url.clone(),
            likes_quantity: self.likes_quantity,
            dislikes_quantity: self.dislikes_quantity,
        }
    }
}

/// A post together with the rate the requesting user gave it, if any.
#[derive(Debug)]
pub struct RatedPost {
    pub post: Post,
    pub rate: Option<RateKind>,
}

/// A page of the feed and the number of posts in the whole feed.
#[derive(Debug)]
pub struct PostsList {
    pub items: Vec<RatedPost>,
    pub total_quantity: i32,
}

/// The `ORDER BY` list that realises an order; ties on counters go to the newer post.
pub open spec fn order_by_clause(order: PostsListOrder) -> Seq<char> {
    match order {
        PostsListOrder::MoreLikesFirst => "p.likes_quantity desc, p.created_at desc"@,
        PostsListOrder::ModeDislikesFirst => "p.dislikes_quantity desc, p.created_at desc"@,
        PostsListOrder::NewFirst => "p.created_at desc"@,
    }
}

/// The statement that selects one page of posts; `$1` is the limit, `$2` the offset.
pub open spec fn posts_page_sql(order: PostsListOrder) -> Seq<char> {
    "select p.id, p.created_at, p.text, p.image_url, p.likes_quantity, p.dislikes_quantity from posts as p order by "@
        + order_by_clause(order)
        + " limit $1::integer offset $2::integer"@
}

/// How many posts come before page `page` (pages count from 1).
pub open spec fn page_offset(page: int, per_page: int) -> int {
    (page - 1) * per_page
}

/// Consecutive pages tile the ordered feed: each page starts right where the
/// previous one ends, so pages never overlap and leave no post out.
pub proof fn lemma_pages_tile(page: int, per_page: int)
    requires
        page >= 1,
        per_page >= 0,
    ensures
        page_offset(page + 1, per_page) == page_offset(page, per_page) + per_page,
        page_offset(1, per_page) == 0,
{
    assert((page + 1 - 1) * per_page == (page - 1) * per_page + per_page) by (nonlinear_arith);
}

/// The page query to run for a list configuration.
pub struct PostsQuery {
    pub sql: String,
    /// Bound to `$1`.
    pub limit: i32,
    /// Bound to `$2`.
    pub offset: i32,
}

/// The ids of the posts, in order.
pub open spec fn ids_of(posts: Seq<Post>) -> Seq<i32> {
    posts.map_values(|p: Post| p.id)
}

/// The map that collecting `(post id, rate)` records gives: a later record for
/// the same post replaces an earlier one.
pub open spec fn records_map(records: Seq<(i32, RateKind)>) -> Map<i32, RateKind>
    decreases records.len(),
{
    if records.len() == 0 {
        Map::empty()
    } else {
        records_map(records.drop_last()).insert(records.last().0, records.last().1)
    }
}

/// The rates handed out to posts with ids `ids`, in order, from `rates`: each
/// post takes the entry for its id out of the map, so a repeated id finds it gone.
pub open spec fn taken_rates(ids: Seq<i32>, rates: Map<i32, RateKind>) -> Seq<Option<RateKind>>
    decreases ids.len(),
{
    if ids.len() == 0 {
        Seq::empty()
    } else {
        let first = if rates.contains_key(ids[0]) {
            Some(rates[ids[0]])
        } else {
            None
        };
        seq![first] + taken_rates(ids.drop_first(), rates.remove(ids[0]))
    }
}

/// Each post takes exactly one entry, so there are as many rates as ids.
pub proof fn lemma_taken_rates_len(ids: Seq<i32>, rates: Map<i32, RateKind>)
    ensures
        taken_rates(ids, rates).len() == ids.len(),
    decreases ids.len(),
{
    if ids.len() > 0 {
        lemma_taken_rates_len(ids.drop_first(), rates.remove(ids[0]));
    }
}

/// The rate a single post finds for its id in `rates`.
pub open spec fn rate_for(rates: Map<i32, RateKind>, id: i32) -> Option<RateKind> {
    if rates.contains_key(id) {
        Some(rates[id])
    } else {
        None
    }
}

/// When no id repeats on the page, every post gets exactly the user's rate for
/// it: taking entries out of the map never hides one a later post needs.
pub proof fn lemma_distinct_posts_get_their_own_rate(ids: Seq<i32>, rates: Map<i32, RateKind>)
    requires
        ids.no_duplicates(),
    ensures
        forall|i: int| 0 <= i < ids.len() ==> #[trigger] taken_rates(ids, rates)[i] == rate_for(rates, ids[i]),
    decreases ids.len(),
{
    lemma_taken_rates_len(ids, rates);
    if ids.len() > 0 {
        let rest = ids.drop_first();
        let rest_rates = rates.remove(ids[0]);
        assert(rest.no_duplicates());
        lemma_distinct_posts_get_their_own_rate(rest, rest_rates);
        assert forall|i: int| 0 <= i < ids.len() implies #[trigger] taken_rates(ids, rates)[i] == rate_for(rates, ids[i]) by {
            if i > 0 {
                assert(rest[i - 1] == ids[i]);
                assert(ids[i] != ids[0]);
                assert(taken_rates(ids, rates)[i] == taken_rates(rest, rest_rates)[i - 1]);
            }
        }
    }
}

/// Collecting the records into a map keeps exactly the posts that have a record.
pub proof fn lemma_records_map_keys(records: Seq<(i32, RateKind)>, id: i32)
    ensures
        records_map(records).contains_key(id) <==> exists|i: int| 0 <= i < records.len() && #[trigger] records[i].0 == id,
    decreases records.len(),
{
    if records.len() > 0 {
        let init = records.drop_last();
        lemma_records_map_keys(init, id);
        if exists|i: int| 0 <= i < init.len() && #[trigger] init[i].0 == id {
            let i = choose|i: int| 0 <= i < init.len() && #[trigger] init[i].0 == id;
            assert(records[i].0 == id);
        }
        if exists|i: int| 0 <= i < records.len() && #[trigger] records[i].0 == id {
            let i = choose|i: int| 0 <= i < records.len() && #[trigger] records[i].0 == id;
            if i < init.len() {
                assert(init[i].0 == id);
            }
        }
    }
}

/// The rate a post keeps in the collected map is the one of its last record.
pub proof fn lemma_records_map_last_record_wins(records: Seq<(i32, RateKind)>, j: int)
    requires
        0 <= j < records.len(),
        forall|k: int| j < k < records.len() ==> #[trigger] records[k].0 != records[j].0,
    ensures
        records_map(records)[records[j].0] == records[j].1,
    decreases records.len(),
{
    let init = records.drop_last();
    if j < records.len() - 1 {
        assert(records[records.len() - 1].0 != records[j].0);
        assert forall|k: int| j < k < init.len() implies #[trigger] init[k].0 != init[j].0 by {
            assert(records[k].0 != records[j].0);
        }
        lemma_records_map_last_record_wins(init, j);
    }
}

/// The path under which a stored image is served.
pub open spec fn image_url_of(file_name: Seq<char>) -> Seq<char> {
    "/storage/"@ + file_name
}

/// Why the page of posts could not be read.
#[derive(Debug)]
pub enum GetPostsError {
    DbError(DbError),
}

/// Why the user's rates could not be read.
#[derive(Debug)]
pub enum GetPostsRatesError {
    DbError(DbError),
}

/// Why the number of posts could not be read.
#[derive(Debug)]
pub enum GetPostsQuantityError {
    DbError(DbError),
}

/// Why a post could not be created.
#[derive(Debug)]
pub enum CreatePostError {
    SaveImageError(SaveImageError),
    DbError(DbError),
}

/// Why a rate could not be set.
#[derive(Debug)]
pub enum UpdateRateError {
    UnknownUserId,
    UnknownPostId,
    Db(DbError),
}

/// The feed: its page queries, the user's rates and new posts.
pub struct PostsService {
    pub storage: ImageStorage,
}

impl PostsService {
    /// The query for one page: `limit` is the page length and `offset` skips the
    /// `page - 1` pages before it, both carried to the database as 32-bit integers.
    /// Page numbers start at 1.
    pub fn get_posts(&self, list_conf: &PostsListConfig) -> (query: PostsQuery)
        requires
            list_conf.page >= 1,
            (list_conf.page - 1) * list_conf.per_page <= u32::MAX,
        ensures
            query.sql@ == posts_page_sql(list_conf.order),
            crate::page_query::parse_page_statement(query.sql@) == Some(
                crate::page_query::PageStatement {
                    keys: crate::page_query::order_keys(list_conf.order),
                    limit_param: 1,
                    offset_param: 2,
                },
            ),
            query.limit == list_conf.per_page as i32,
            query.offset == page_offset(list_conf.page as int, list_conf.per_page as int) as i32,
    {
        let order_by_column = match list_conf.order {
            PostsListOrder::MoreLikesFirst => "p.likes_quantity desc, p.created_at desc",
            PostsListOrder::ModeDislikesFirst => "p.dislikes_quantity desc, p.created_at desc",
            PostsListOrder::NewFirst => "p.created_at desc",
        };
        let mut sql = String::from_str(
            "select p.id, p.created_at, p.text, p.image_url, p.likes_quantity, p.dislikes_quantity from posts as p order by ",
        );
        sql.append(order_by_column);
        sql.append(" limit $1::integer offset $2::integer");
        let limit = list_conf.per_page;
        let offset = (list_conf.page - 1) * list_conf.per_page;
        proof {
            crate::page_query::lemma_statement_of_order(list_conf.order);
        }
        PostsQuery { sql, limit: limit as i32, offset: offset as i32 }
    }

    /// The user's rates keyed by post id, from the `(post id, rate)` records the
    /// database returned; a later record for a post replaces an earlier one.
    pub fn get_posts_rates(records: &Vec<(i32, RateKind)>) -> (rates: HashMap<i32, RateKind>)
        ensures
            rates@ == records_map(records@),
    {
        let mut rates: HashMap<i32, RateKind> = HashMap::new();
        let mut i: usize = 0;
        while i < records.len()
            invariant
                i <= records.len(),
                rates@ == records_map(records@.take(i as int)),
            decreases records.len() - i,
        {
            let (post_id, rate) = records[i];
            rates.insert(post_id, rate);
            assert(records@.take(i + 1).drop_last() == records@.take(i as int));
            i = i + 1;
        }
        assert(records@.take(records.len() as int) == records@);
        rates
    }

    /// The URL of an image stored under `file_name`.
    fn image_url(file_name: &str) -> (url: String)
        ensures
            url@ == image_url_of(file_name@),
    {
        let mut url = String::from_str("/storage/");
        url.append(file_name);
        url
    }

    /// Starts creating a post with `text` and an image: first store the image.
    pub fn create_new_post(text: &str) -> (start: (CreatePostFlow, CreatePostAction))
        ensures
            start.0 matches CreatePostFlow::AwaitImage { text: t } && t@ == text@,
            start.1 is SaveImage,
    {
        (CreatePostFlow::AwaitImage { text: String::from_str(text) }, CreatePostAction::SaveImage)
    }
}

/// Where the creation of a post stands.
#[derive(Debug)]
pub enum CreatePostFlow {
    /// Waiting for the image to be stored; `text` is the post's text.
    AwaitImage { text: String },
    /// Waiting for the post row to be inserted.
    AwaitInsert { text: String, image_url: String },
    Done,
}

/// The outcome of the last requested action of a post creation.
#[derive(Debug)]
pub enum CreatePostEvent {
    /// The image was stored under this file name, or could not be.
    ImageSaved(Result<String, SaveImageError>),
    /// The post row was inserted with this id and creation time (microseconds
    /// since the Unix epoch), or could not be.
    PostInserted(Result<(i32, i64), DbError>),
}

/// What the caller of a post creation is to do next.
#[derive(Debug)]
pub enum CreatePostAction {
    /// Store the uploaded image under a fresh name.
    SaveImage,
    /// Insert a post with this text and image URL, returning its id and creation time.
    InsertPost { text: String, image_url: String },
    Finish(Result<Post, CreatePostError>),
}

/// The events a post creation takes in each state.
pub open spec fn create_post_accepts(flow: CreatePostFlow, event: CreatePostEvent) -> bool {
    match event {
        CreatePostEvent::ImageSaved(_) => flow is AwaitImage,
        CreatePostEvent::PostInserted(_) => flow is AwaitInsert,
    }
}

impl CreatePostFlow {
    /// Takes the outcome of the last action of a post creation and tells what
    /// to do next: the post is inserted only once its image is stored, and the
    /// new post has no likes or dislikes yet.
    pub fn resume(self, event: CreatePostEvent) -> (next: (CreatePostFlow, CreatePostAction))
        requires
            create_post_accepts(self, event),
        ensures
            match event {
                CreatePostEvent::ImageSaved(Err(e)) => {
                    &&& next.0 is Done
                    &&& next.1 == CreatePostAction::Finish(Err(CreatePostError::SaveImageError(e)))
                },
                CreatePostEvent::ImageSaved(Ok(file_name)) => {
                    &&& next.0 matches CreatePostFlow::AwaitInsert { text, image_url } && text
                        == self->AwaitImage_text && image_url@ == image_url_of(file_name@)
                    &&& next.1 matches CreatePostAction::InsertPost { text, image_url } && text
                        == self->AwaitImage_text && image_url@ == image_url_of(file_name@)
                },
                CreatePostEvent::PostInserted(Err(e)) => {
                    &&& next.0 is Done
                    &&& next.1 == CreatePostAction::Finish(Err(CreatePostError::DbError(e)))
                },
                CreatePostEvent::PostInserted(Ok((id, created_at))) => {
                    &&& next.0 is Done
                    &&& next.1 == CreatePostAction::Finish(
                        Ok(
                            Post {
                                id,
                                created_at,
                                text: self->AwaitInsert_text,
                                image_url: self->AwaitInsert_image_url,
                                likes_quantity: 0,
                                dislikes_quantity: 0,
                            },
                        ),
                    )
                },
            },
    {
        match event {
            CreatePostEvent::ImageSaved(Err(e)) => (
                CreatePostFlow::Done,
                CreatePostAction::Finish(Err(CreatePostError::SaveImageError(e))),
            ),
            CreatePostEvent::ImageSaved(Ok(file_name)) => {
                let text = match self {
                    CreatePostFlow::AwaitImage { text } => text,
                    _ => vstd::pervasive::unreached(),
                };
                let image_url = PostsService::image_url(file_name.as_str());
                let insert = CreatePostAction::InsertPost { text: text.clone(), image_url: image_url.clone() };
                (CreatePostFlow::AwaitInsert { text, image_url }, insert)
            },
            CreatePostEvent::PostInserted(Err(e)) => (
                CreatePostFlow::Done,
                CreatePostAction::Finish(Err(CreatePostError::DbError(e))),
            ),
            CreatePostEvent::PostInserted(Ok((id, created_at))) => {
                let (text, image_url) = match self {
                    CreatePostFlow::AwaitInsert { text, image_url } => (text, image_url),
                    _ => vstd::pervasive::unreached(),
                };
                let post = Post { id, created_at, text, image_url, likes_quantity: 0, dislikes_quantity: 0 };
                (CreatePostFlow::Done, CreatePostAction::Finish(Ok(post)))
            },
        }
    }
}

/// The ids of `posts`, in order (asked for the rates of the page).
pub fn post_ids(posts: &Vec<Post>) -> (ids: Vec<i32>)
    ensures
        ids@ == ids_of(posts@),
{
    let mut ids: Vec<i32> = Vec::new();
    let mut i: usize = 0;
    while i < posts.len()
        invariant
            i <= posts.len(),
            ids@ == ids_of(posts@.take(i as int)),
        decreases posts.len() - i,
    {
        ids.push(posts[i].id);
        assert(ids_of(posts@.take(i + 1)) == ids_of(posts@.take(i as int)).push(posts@[i as int].id));
        i = i + 1;
    }
    assert(posts@.take(posts.len() as int) == posts@);
    ids
}

/// Pairs each post with the user's rate for it, taking the rate out of `rates`
/// as it goes.
pub fn rate_posts(posts: &Vec<Post>, rates: HashMap<i32, RateKind>) -> (rated: Vec<RatedPost>)
    ensures
        rated@.len() == posts@.len(),
        forall|i: int| 0 <= i < posts@.len() ==> #[trigger] rated@[i].post == posts@[i],
        forall|i: int|
            0 <= i < posts@.len() ==> #[trigger] rated@[i].rate == taken_rates(ids_of(posts@), rates@)[i],
{
    let ghost ids = ids_of(posts@);
    let ghost all = taken_rates(ids, rates@);
    let mut rates = rates;
    let mut rated: Vec<RatedPost> = Vec::new();
    proof {
        lemma_taken_rates_len(ids, rates@);
        assert(ids.skip(0) == ids);
        assert(Seq::new(0, |j: int| rated@[j].rate) + taken_rates(ids.skip(0), rates@) == all);
    }
    let mut i: usize = 0;
    while i < posts.len()
        invariant
            i <= posts.len(),
            ids == ids_of(posts@),
            rated@.len() == i,
            forall|j: int| 0 <= j < i ==> #[trigger] rated@[j].post == posts@[j],
            all.len() == ids.len(),
            all == Seq::new(i as nat, |j: int| rated@[j].rate) + taken_rates(ids.skip(i as int), rates@),
        decreases posts.len() - i,
    {
        let post = posts[i].clone();
        let ghost before = rates@;
        let ghost prefix = Seq::new(i as nat, |j: int| rated@[j].rate);
        let rate = rates.remove(&post.id);
        proof {
            let rest = ids.skip(i as int);
            assert(rest[0] == ids[i as int]);
            assert(rest.drop_first() == ids.skip(i + 1));
            assert(taken_rates(rest, before) == seq![rate] + taken_rates(ids.skip(i + 1), rates@));
        }
        rated.push(RatedPost { post, rate });
        i = i + 1;
        proof {
            assert(Seq::new(i as nat, |j: int| rated@[j].rate) == prefix.push(rate));
            assert(prefix + (seq![rate] + taken_rates(ids.skip(i as int), rates@)) == prefix.push(rate)
                + taken_rates(ids.skip(i as int), rates@));
        }
    }
    proof {
        assert(ids.skip(i as int).len() == 0);
        assert(all == Seq::new(i as nat, |j: int| rated@[j].rate));
    }
    rated
}

/// The reply body of the feed: the rated page and the total number of posts,
/// the latter carried as a 32-bit integer.
pub fn posts_list(items: Vec<RatedPost>, total: i64) -> (list: PostsList)
    ensures
        list.items == items,
        list.total_quantity == total as i32,
{
    PostsList { items, total_quantity: total as i32 }
}

} // verus!
