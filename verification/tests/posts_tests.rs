use rust_backend::db::DbError;
use rust_backend::image_storage::{ImageStorage, SaveImageError};
use rust_backend::posts::{
    default_list_conf_order, CreatePostAction, CreatePostError, CreatePostEvent, CreatePostFlow, default_list_conf_page, default_list_conf_per_page, post_ids, posts_list,
    rate_posts, Post, PostsListConfig, PostsListOrder, PostsService, RateKind,
};
use std::collections::HashMap;

fn post(id: i32) -> Post {
    Post {
        id,
        created_at: 1_700_000_000_000_000 + id as i64,
        text: format!("post {}", id),
        image_url: format!("/storage/{}", id),
        likes_quantity: 2,
        dislikes_quantity: 1,
    }
}

fn service() -> PostsService {
    PostsService { storage: ImageStorage { root: "/tmp/images".to_string() } }
}

#[test]
fn list_config_defaults() {
    assert_eq!(default_list_conf_page(), 1);
    assert_eq!(default_list_conf_per_page(), 5);
    assert_eq!(default_list_conf_order(), PostsListOrder::NewFirst);
}

#[test]
fn first_page_query() {
    let conf = PostsListConfig { page: 1, per_page: 5, order: PostsListOrder::NewFirst };
    let q = service().get_posts(&conf);
    assert_eq!(q.limit, 5);
    assert_eq!(q.offset, 0);
    assert!(q.sql.ends_with("order by p.created_at desc limit $1::integer offset $2::integer"));
    assert!(q.sql.starts_with("select p.id, p.created_at, p.text, p.image_url, p.likes_quantity, p.dislikes_quantity from posts as p"));
}

#[test]
fn later_page_query_skips_earlier_pages() {
    let conf = PostsListConfig { page: 4, per_page: 10, order: PostsListOrder::MoreLikesFirst };
    let q = service().get_posts(&conf);
    assert_eq!(q.limit, 10);
    assert_eq!(q.offset, 30);
    assert!(q.sql.contains("order by p.likes_quantity desc, p.created_at desc limit"));
}

#[test]
fn dislike_order_query() {
    let conf = PostsListConfig { page: 2, per_page: 3, order: PostsListOrder::ModeDislikesFirst };
    let q = service().get_posts(&conf);
    assert_eq!(q.offset, 3);
    assert!(q.sql.contains("order by p.dislikes_quantity desc, p.created_at desc limit"));
}

#[test]
fn huge_page_length_wraps_to_i32() {
    let conf = PostsListConfig { page: 2, per_page: u32::MAX / 2 + 1, order: PostsListOrder::NewFirst };
    let q = service().get_posts(&conf);
    assert_eq!(q.limit, i32::MIN);
    assert_eq!(q.offset, i32::MIN);
}

#[test]
fn rates_map_keeps_last_record() {
    let records = vec![(1, RateKind::Like), (2, RateKind::Dislike), (1, RateKind::Dislike)];
    let map = PostsService::get_posts_rates(&records);
    assert_eq!(map.len(), 2);
    assert_eq!(map.get(&1), Some(&RateKind::Dislike));
    assert_eq!(map.get(&2), Some(&RateKind::Dislike));
    assert!(PostsService::get_posts_rates(&vec![]).is_empty());
}

#[test]
fn post_ids_in_order() {
    assert_eq!(post_ids(&vec![post(3), post(1), post(2)]), vec![3, 1, 2]);
    assert!(post_ids(&vec![]).is_empty());
}

#[test]
fn each_post_gets_its_own_rate() {
    let mut rates = HashMap::new();
    rates.insert(1, RateKind::Like);
    rates.insert(3, RateKind::Dislike);
    let rated = rate_posts(&vec![post(1), post(2), post(3)], rates);
    assert_eq!(rated.len(), 3);
    assert_eq!(rated[0].rate, Some(RateKind::Like));
    assert_eq!(rated[1].rate, None);
    assert_eq!(rated[2].rate, Some(RateKind::Dislike));
    assert_eq!(rated[1].post.id, 2);
    assert_eq!(rated[1].post.text, "post 2");
    assert_eq!(rated[2].post.likes_quantity, 2);
}

#[test]
fn repeated_post_takes_rate_once() {
    let mut rates = HashMap::new();
    rates.insert(1, RateKind::Like);
    let rated = rate_posts(&vec![post(1), post(1)], rates);
    assert_eq!(rated[0].rate, Some(RateKind::Like));
    assert_eq!(rated[1].rate, None);
}

#[test]
fn posts_list_total_is_truncated_to_i32() {
    let list = posts_list(Vec::new(), 17);
    assert_eq!(list.total_quantity, 17);
    assert!(list.items.is_empty());
    let big = posts_list(Vec::new(), (1i64 << 32) + 5);
    assert_eq!(big.total_quantity, 5);
}

#[test]
fn new_post_has_no_reactions() {
    let (flow, action) = PostsService::create_new_post("hello");
    assert!(matches!(action, CreatePostAction::SaveImage));
    let name = "0b8c3f0e-aaaa-4bbb-8ccc-0123456789ab".to_string();
    let (flow, action) = flow.resume(CreatePostEvent::ImageSaved(Ok(name)));
    match action {
        CreatePostAction::InsertPost { text, image_url } => {
            assert_eq!(text, "hello");
            assert_eq!(image_url, "/storage/0b8c3f0e-aaaa-4bbb-8ccc-0123456789ab");
        }
        other => panic!("unexpected {:?}", other),
    }
    let (flow, action) = flow.resume(CreatePostEvent::PostInserted(Ok((11, 123))));
    assert!(matches!(flow, CreatePostFlow::Done));
    match action {
        CreatePostAction::Finish(Ok(p)) => {
            assert_eq!(p.id, 11);
            assert_eq!(p.created_at, 123);
            assert_eq!(p.text, "hello");
            assert_eq!(p.image_url, "/storage/0b8c3f0e-aaaa-4bbb-8ccc-0123456789ab");
            assert_eq!(p.likes_quantity, 0);
            assert_eq!(p.dislikes_quantity, 0);
        }
        other => panic!("unexpected {:?}", other),
    }
}

#[test]
fn new_post_failures() {
    let (flow, _) = PostsService::create_new_post("x");
    let (flow, action) = flow.resume(CreatePostEvent::ImageSaved(Err(SaveImageError::WriteFileError("disk full".to_string()))));
    assert!(matches!(flow, CreatePostFlow::Done));
    assert!(matches!(action, CreatePostAction::Finish(Err(CreatePostError::SaveImageError(_)))));
    let (flow, _) = PostsService::create_new_post("x");
    let (flow, _) = flow.resume(CreatePostEvent::ImageSaved(Ok("a".to_string())));
    let (_, action) = flow.resume(CreatePostEvent::PostInserted(Err(DbError::Other { message: String::new() })));
    assert!(matches!(action, CreatePostAction::Finish(Err(CreatePostError::DbError(_)))));
}

#[test]
fn stored_images_get_fresh_uuid_names() {
    let storage = ImageStorage { root: "/tmp".to_string() };
    let a = storage.next_file_name();
    let b = storage.next_file_name();
    assert_eq!(a.len(), 36);
    assert_eq!(&a[14..15], "4");
    assert_eq!(a.matches('-').count(), 4);
    assert_ne!(a, b);
}
