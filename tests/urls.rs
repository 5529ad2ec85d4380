use yts_api::{ApiEndpoint, ApiError, ListMovies, MovieDetails, Order, Quality, Sort};

#[test]
fn list_movies_url_build_empty() {
    let url = ListMovies::new().get_url();
    assert_eq!(url, "https://yts.mx/api/v2/list_movies.json?");
}

#[test]
fn list_movies_url_query_term() {
    let url = ListMovies::new().query_term("test").get_url();
    assert_eq!(
        url,
        "https://yts.mx/api/v2/list_movies.json?query_term=test&"
    );
}

#[test]
fn list_movies_url_every_parameter_in_order() {
    let url = ListMovies::new()
        .wirth_rt_ratings(true)
        .order_by(Order::Asc)
        .sort_by(Sort::DownloadCount)
        .genre("drama")
        .query_term("heat")
        .minimum_rating(7)
        .quality(Quality::Q1080p)
        .page(3)
        .unwrap()
        .limit(50)
        .unwrap()
        .get_url();
    assert_eq!(
        url,
        "https://yts.mx/api/v2/list_movies.json?limit=50&page=3&quality=1080p&minimum_rating=7&query_term=heat&genre=drama&sort_by=download_count&order_by=asc&wirth_rt_ratings=true&"
    );
}

#[test]
fn list_movies_url_setting_twice_keeps_last() {
    let url = ListMovies::new().genre("comedy").genre("horror").get_url();
    assert_eq!(url, "https://yts.mx/api/v2/list_movies.json?genre=horror&");
}

#[test]
fn list_movies_url_multi_digit_numbers() {
    let url = ListMovies::new().page(1234567).unwrap().minimum_rating(0).get_url();
    assert_eq!(
        url,
        "https://yts.mx/api/v2/list_movies.json?page=1234567&minimum_rating=0&"
    );
    let url = ListMovies::new().page(u32::MAX).unwrap().get_url();
    assert_eq!(url, "https://yts.mx/api/v2/list_movies.json?page=4294967295&");
}

#[test]
fn list_movies_url_labels() {
    let labels = [
        (Quality::Q720p, "720p"),
        (Quality::Q1080p, "1080p"),
        (Quality::Q2160p, "2160p"),
        (Quality::Q3D, "3D"),
    ];
    for (q, text) in labels {
        assert_eq!(q.as_str(), text);
    }
    let keys = [
        (Sort::Title, "title"),
        (Sort::Year, "year"),
        (Sort::Rating, "rating"),
        (Sort::Peers, "peers"),
        (Sort::Seeds, "seeds"),
        (Sort::DownloadCount, "download_count"),
        (Sort::LikeCount, "like_count"),
        (Sort::DateAdded, "date_added"),
    ];
    for (k, text) in keys {
        assert_eq!(k.as_str(), text);
    }
    assert_eq!(Order::Desc.as_str(), "desc");
    assert_eq!(Order::Asc.as_str(), "asc");
    let url = ListMovies::new().sort_by(Sort::DateAdded).order_by(Order::Desc).get_url();
    assert_eq!(
        url,
        "https://yts.mx/api/v2/list_movies.json?sort_by=date_added&order_by=desc&"
    );
}

#[test]
fn list_movies_limit_range() {
    assert!(matches!(ListMovies::new().limit(0), Err(ApiError::Precondition(_))));
    assert!(matches!(ListMovies::new().limit(1), Err(ApiError::Precondition(_))));
    assert!(matches!(ListMovies::new().limit(51), Err(ApiError::Precondition(_))));
    assert!(matches!(ListMovies::new().limit(255), Err(ApiError::Precondition(_))));
    assert_eq!(
        ListMovies::new().limit(2).unwrap().get_url(),
        "https://yts.mx/api/v2/list_movies.json?limit=2&"
    );
    assert_eq!(
        ListMovies::new().limit(50).unwrap().get_url(),
        "https://yts.mx/api/v2/list_movies.json?limit=50&"
    );
}

#[test]
fn list_movies_page_range() {
    assert!(matches!(ListMovies::new().page(0), Err(ApiError::Precondition(_))));
    assert!(matches!(ListMovies::new().page(1), Err(ApiError::Precondition(_))));
    assert_eq!(
        ListMovies::new().page(2).unwrap().get_url(),
        "https://yts.mx/api/v2/list_movies.json?page=2&"
    );
}

#[test]
fn movie_details_url() {
    assert_eq!(
        MovieDetails::new(10).get_url(),
        "https://yts.mx/api/v2/movie_details.json?movie_id=10&"
    );
    assert_eq!(
        MovieDetails::new(10).with_images(true).with_cast(false).get_url(),
        "https://yts.mx/api/v2/movie_details.json?movie_id=10&with_images=true&with_cast=false&"
    );
    assert_eq!(
        MovieDetails::new(0).with_cast(true).get_url(),
        "https://yts.mx/api/v2/movie_details.json?movie_id=0&with_cast=true&"
    );
}
