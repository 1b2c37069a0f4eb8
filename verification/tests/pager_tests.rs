use asimov_readwise_module::api::pager::PageRequest;
use asimov_readwise_module::api::pager::Pager;
use asimov_readwise_module::api::readwise::ReadwiseClient;
use asimov_readwise_module::api::readwise::ReadwiseConfig;
use asimov_readwise_module::api::types::PaginatedResponse;

fn page(results: Option<Vec<u32>>, next: bool, count: Option<u32>) -> PaginatedResponse<u32> {
    PaginatedResponse {
        count,
        next: if next { Some("https://readwise.io/api/v2/next".to_string()) } else { None },
        previous: None,
        results,
    }
}

fn fetch_all(pages: Vec<PaginatedResponse<u32>>) -> (Vec<u32>, Vec<PageRequest>) {
    let mut pager: Pager<u32> = Pager::new(None, None);
    let mut asked = Vec::new();
    let mut pages = pages.into_iter();
    while let Some(request) = pager.request() {
        asked.push(request);
        let response = pages.next().unwrap_or_else(|| page(None, false, None));
        pager = pager.on_page(response);
    }
    (pager.finish().unwrap(), asked)
}

#[test]
fn two_pages_give_three_items_in_two_requests() {
    let (items, asked) =
        fetch_all(vec![page(Some(vec![1, 2]), true, None), page(Some(vec![3]), false, None)]);
    assert_eq!(items, vec![1, 2, 3]);
    assert_eq!(
        asked,
        vec![
            PageRequest { page_size: None, page: Some(1) },
            PageRequest { page_size: None, page: Some(2) },
        ]
    );
}

#[test]
fn a_page_without_next_is_the_last_whatever_its_count() {
    let (items, asked) = fetch_all(vec![
        page(Some(vec![1, 2]), false, Some(1000)),
        page(Some(vec![3]), false, Some(1000)),
    ]);
    assert_eq!(items, vec![1, 2]);
    assert_eq!(asked.len(), 1);
}

#[test]
fn an_empty_page_is_the_last_even_with_next() {
    let (items, asked) = fetch_all(vec![
        page(Some(vec![1]), true, Some(5)),
        page(Some(vec![]), true, Some(5)),
        page(Some(vec![9]), true, Some(5)),
    ]);
    assert_eq!(items, vec![1]);
    assert_eq!(asked.len(), 2);
}

#[test]
fn a_page_without_results_is_the_last_even_with_next() {
    let (items, asked) = fetch_all(vec![page(None, true, Some(5)), page(Some(vec![9]), true, None)]);
    assert_eq!(items, Vec::<u32>::new());
    assert_eq!(asked.len(), 1);
}

#[test]
fn given_parameters_ask_for_exactly_one_page() {
    let mut pager: Pager<u32> = Pager::new(Some(2), None);
    assert_eq!(pager.request(), Some(PageRequest { page_size: Some(2), page: None }));
    assert!(!pager.is_finished());
    pager = pager.on_page(page(Some(vec![1, 2]), true, None));
    assert!(pager.is_finished());
    assert_eq!(pager.request(), None);
    assert_eq!(pager.finish(), Some(vec![1, 2]));

    let mut pager: Pager<u32> = Pager::new(None, Some(4));
    assert_eq!(pager.request(), Some(PageRequest { page_size: None, page: Some(4) }));
    pager = pager.on_page(page(Some(vec![7]), true, None));
    assert_eq!(pager.request(), None);
    assert_eq!(pager.finish(), Some(vec![7]));
}

#[test]
fn nothing_is_given_out_before_the_fetch_has_finished() {
    let pager: Pager<u32> = Pager::new(None, None);
    assert_eq!(pager.finish(), None);
    let pager: Pager<u32> = Pager::new(None, None).on_page(page(Some(vec![1]), true, None));
    assert_eq!(pager.finish(), None);
}

#[test]
fn a_page_after_the_end_changes_nothing() {
    let pager: Pager<u32> = Pager::new(None, None).on_page(page(Some(vec![1]), false, None));
    assert!(pager.is_finished());
    let pager = pager.on_page(page(Some(vec![2]), true, None));
    assert!(pager.is_finished());
    assert_eq!(pager.finish(), Some(vec![1]));
}

#[test]
fn pager_requests_become_urls() {
    let client = ReadwiseClient::new(ReadwiseConfig::new("k".to_string())).unwrap();
    let pager: Pager<u32> = Pager::new(None, None);
    let request = client.highlights_page(pager.request().unwrap());
    assert_eq!(request.url, "https://readwise.io/api/v2/highlights/?page=1");
    assert_eq!(request.authorization, "Token k");
    let pager: Pager<u32> = Pager::new(Some(2), Some(3));
    let request = client.booklist_page(pager.request().unwrap());
    assert_eq!(request.url, "https://readwise.io/api/v2/books/?page_size=2&page=3");
}
