use music_dashboard::page::{Page, PageState, PageView};
use music_dashboard::render::{render_card, render_list, resolve_asset_url, DeployMode};
use music_dashboard::song::Song;
use music_dashboard::store::RecommendationStore;

#[test]
fn asset_urls_are_prefixed_under_sub_path_deployment() {
    let url = "/images/50.png".to_string();
    let resolved = resolve_asset_url(DeployMode::SubPath, &url);
    assert_eq!(resolved, "/leptos/images/50.png");
}

#[test]
fn asset_urls_are_bare_under_root_deployment() {
    let url = "/images/50.png".to_string();
    let resolved = resolve_asset_url(DeployMode::Root, &url);
    assert_eq!(resolved, "/images/50.png");
}

#[test]
fn card_holds_cover_title_and_byline() {
    let song = Song::new(
        "Mock Song One".to_string(),
        "Mock Artist One".to_string(),
        "Mock Album One".to_string(),
        "/images/50.png".to_string(),
    );
    let card = render_card(DeployMode::SubPath, &song);
    assert_eq!(card.cover_src, "/leptos/images/50.png");
    assert_eq!(card.title, "Mock Song One");
    assert_eq!(card.byline, "Mock Artist One - Mock Album One");
}

#[test]
fn rendering_the_same_snapshot_twice_is_identical() {
    let mut page = Page::mount();
    assert!(page.submit(Some(&"Test Track".to_string())));
    let first = render_list(DeployMode::SubPath, page.recommendations());
    let second = render_list(DeployMode::SubPath, page.recommendations());
    assert_eq!(first, second);
}

#[test]
fn empty_store_renders_an_empty_list() {
    let store = RecommendationStore::new();
    let cards = render_list(DeployMode::SubPath, store.read());
    assert!(cards.is_empty());
}

#[test]
fn list_renders_store_contents_in_order() {
    let mut page = Page::mount();
    assert!(page.submit(Some(&"Test Track".to_string())));
    let cards = render_list(DeployMode::SubPath, page.recommendations());
    assert_eq!(cards.len(), 3);
    assert_eq!(cards[0].title, "Mock Song One");
    assert_eq!(cards[0].byline, "Mock Artist One - Mock Album One");
    assert_eq!(cards[1].title, "Mock Song Two");
    assert_eq!(cards[2].title, "Test Track");
    assert_eq!(cards[2].byline, "New Artist - New Album");
    assert_eq!(cards[2].cover_src, "/leptos/images/50.png");
}

#[test]
fn ready_page_shows_the_rendered_list() {
    let page = Page::mount();
    match page.current_view(DeployMode::SubPath) {
        PageView::Content { cards } => {
            assert_eq!(cards.len(), 2);
            assert_eq!(cards[0].title, "Mock Song One");
        }
        PageView::Fallback { .. } => panic!("a freshly mounted page must show content"),
    }
}

#[test]
fn render_fault_shows_the_fallback() {
    let mut page = Page::mount();
    page.apply_render_outcome(Err(vec!["list item failed to build".to_string()]));
    assert_eq!(page.state(), PageState::Faulted);
    match page.current_view(DeployMode::SubPath) {
        PageView::Fallback { heading, errors } => {
            assert_eq!(heading, "Uh oh! Something went wrong!");
            assert_eq!(errors, vec!["list item failed to build".to_string()]);
        }
        PageView::Content { .. } => panic!("a faulted page must show the fallback"),
    }
}

#[test]
fn faulted_state_is_one_way() {
    let mut page = Page::mount();
    page.apply_render_outcome(Err(vec!["boom".to_string()]));
    assert_eq!(page.state(), PageState::Faulted);
    page.apply_render_outcome(Ok(()));
    assert_eq!(page.state(), PageState::Faulted);
}

#[test]
fn successful_render_pass_keeps_page_ready() {
    let mut page = Page::mount();
    page.apply_render_outcome(Ok(()));
    assert_eq!(page.state(), PageState::Ready);
    assert_eq!(page.recommendation_count(), 2);
}
