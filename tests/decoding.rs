use yts_api::{
    decode_response, open_body, parse_json, read_movie_detail, read_movie_list, ApiError, Data,
    Response, Status,
};

fn torrent_json(quality: &str) -> String {
    format!(
        r#"{{"url":"https://yts.mx/torrent/download/ABC","hash":"ABC{q}","quality":"{q}","type":"bluray","seeds":12,"peers":3,"size":"1.2 GB","size_bytes":1288490189,"date_uploaded":"2015-10-31 20:47:37","date_uploaded_unix":1446320857}}"#,
        q = quality
    )
}

fn movie_json(id: u32) -> String {
    format!(
        r#"{{"id":{id},"url":"https://yts.mx/movies/m-{id}","imdb_code":"tt00{id}","title":"Movie {id}","title_english":"Movie {id}","title_long":"Movie {id} (2001)","slug":"movie-{id}-2001","year":2001,"rating":6.5,"runtime":98,"genres":["Drama","Crime"],"summary":"","description_full":"A plot.","synopsis":"","yt_trailer_code":"","language":"en","mpa_rating":"R","background_image":"https://yts.mx/bg.jpg","background_image_original":"https://yts.mx/bgo.jpg","small_cover_image":"https://yts.mx/s.jpg","medium_cover_image":"https://yts.mx/m.jpg","large_cover_image":"https://yts.mx/l.jpg","state":"ok","torrents":[{t}],"date_uploaded":"2015-10-31 20:47:37","date_uploaded_unix":1446320857}}"#,
        id = id,
        t = torrent_json("720p")
    )
}

fn list_body(movie_count: u32, n: u32) -> String {
    let movies: Vec<String> = (1..=n).map(movie_json).collect();
    format!(
        r#"{{"status":"ok","status_message":"Query was successful","data":{{"movie_count":{},"limit":20,"page_number":1,"movies":[{}]}},"@meta":{{"server_time":1}}}}"#,
        movie_count,
        movies.join(",")
    )
}

fn decode(text: &str) -> Response {
    let json = parse_json(text).unwrap();
    decode_response(&json).unwrap()
}

#[test]
fn deserialize_test_data() {
    let response = decode(&list_body(10, 10));
    assert_eq!(response.status, Status::Success);
    assert_eq!(response.status_message, "Query was successful");
    let data = response.data.unwrap();
    let movie_list = match data {
        Data::MovieList(movie_list) => movie_list,
        _ => panic!("Wrong data"),
    };
    assert_eq!(movie_list.movie_count, 10);
    assert_eq!(movie_list.limit, 20);
    assert_eq!(movie_list.page_number, 1);
    assert_eq!(movie_list.movies.len(), 10);
}

#[test]
fn deserialize_empty_test_data() {
    let text = r#"{"status":"ok","status_message":"Query was successful","data":{"movie_count":0,"limit":20,"page_number":1},"@meta":{"server_time":1}}"#;
    let response = decode(text);
    assert_eq!(response.status, Status::Success);
    assert_eq!(response.status_message, "Query was successful");
    let data = response.data.unwrap();
    let movie_list = match data {
        Data::MovieList(movie_list) => movie_list,
        _ => panic!("Wrong data"),
    };
    assert_eq!(movie_list.movie_count, 0);
    assert_eq!(movie_list.limit, 20);
    assert_eq!(movie_list.page_number, 1);
    assert_eq!(movie_list.movies.len(), 0);
}

#[test]
fn deserialize_movie_details() {
    let text = format!(
        r#"{{"status":"ok","status_message":"Query was successful","data":{{"movie":{}}}}}"#,
        movie_json(10)
    );
    let response = decode(&text);
    assert_eq!(response.status, Status::Success);
    assert_eq!(response.status_message, "Query was successful");
    let data = response.data.unwrap();
    let movie_details = match data {
        Data::MovieDetails(movie_details) => movie_details,
        _ => panic!("Wrong data"),
    };
    assert_eq!(movie_details.movie.id, 10);
}

#[test]
fn deserialize_movie_details_full() {
    let text = format!(
        r#"{{"status":"ok","status_message":"Query was successful","data":{{"movie":{{"id":15,"url":"https://yts.mx/movies/m-15","imdb_code":"tt0015","title":"Fifteen","title_english":"Fifteen","title_long":"Fifteen (1999)","slug":"fifteen-1999","year":1999,"rating":7,"runtime":0,"genres":[],"summary":"Sum.","description_intro":"Intro.","description_full":"Full.","synopsis":"Syn.","yt_trailer_code":"abc","language":"en","mpa_rating":"","background_image":"b","background_image_original":"bo","small_cover_image":"s","medium_cover_image":"m","large_cover_image":"l","medium_screenshot_image1":"m1","medium_screenshot_image2":"m2","medium_screenshot_image3":"m3","large_screenshot_image1":"l1","large_screenshot_image2":"l2","large_screenshot_image3":"l3","state":"ok","torrents":[{},{}],"date_uploaded":"2015-10-31 20:47:37","date_uploaded_unix":1446320857,"download_count":4021,"like_count":17,"cast":[{{"name":"A. Actor","character_name":"Hero","imdb_code":"0000001","url_small_image":"https://yts.mx/a.jpg"}},{{"name":"B. Actor","character_name":"Villain","imdb_code":"0000002"}}]}}}}}}"#,
        torrent_json("1080p"),
        torrent_json("2160p")
    );
    let response = decode(&text);
    assert_eq!(response.status, Status::Success);
    assert_eq!(response.status_message, "Query was successful");
    let data = response.data.unwrap();
    let movie_details = match data {
        Data::MovieDetails(movie_details) => movie_details,
        _ => panic!("Wrong data"),
    };
    assert_eq!(movie_details.movie.id, 15);
    let movie = movie_details.movie;
    assert_eq!(movie.rating, "7");
    assert_eq!(movie.download_count, Some(4021));
    assert_eq!(movie.like_count, Some(17));
    assert_eq!(movie.description_intro, Some("Intro.".to_string()));
    assert_eq!(movie.large_screenshot_image3, Some("l3".to_string()));
    assert_eq!(movie.torrents.len(), 2);
    assert_eq!(movie.torrents[1].quality, "2160p");
    assert_eq!(movie.torrents[0]._type, "bluray");
    assert_eq!(movie.torrents[0].size_bytes, 1288490189);
    let cast = movie.cast.unwrap();
    assert_eq!(cast.len(), 2);
    assert_eq!(cast[0].character_name, "Hero");
    assert_eq!(cast[1].url_small_image, None);
}

#[test]
fn decoded_movie_fields() {
    let response = decode(&list_body(3, 3));
    let list = match response.data.unwrap() {
        Data::MovieList(l) => l,
        _ => panic!("Wrong data"),
    };
    let movie = &list.movies[2];
    assert_eq!(movie.id, 3);
    assert_eq!(movie.title_long, "Movie 3 (2001)");
    assert_eq!(movie.year, 2001);
    assert_eq!(movie.rating, "6.5");
    assert_eq!(movie.runtime, 98);
    assert_eq!(movie.genres, vec!["Drama".to_string(), "Crime".to_string()]);
    assert_eq!(movie.summary, Some(String::new()));
    assert_eq!(movie.description_intro, None);
    assert_eq!(movie.state, Some(Status::Success));
    assert_eq!(movie.torrents[0].seeds, 12);
    assert_eq!(movie.torrents[0].date_uploaded_unix, 1446320857);
    assert_eq!(movie.download_count, None);
    assert_eq!(movie.cast, None);
}

#[test]
fn list_count_matches_movies() {
    for n in [0u32, 1, 7] {
        let list = read_movie_list(&list_body(99, n)).unwrap();
        assert_eq!(list.movies.len(), n as usize);
        assert_eq!(list.movie_count, 99);
        assert_eq!(list.limit, 20);
        assert_eq!(list.page_number, 1);
    }
}

#[test]
fn remote_error_message() {
    let text = r#"{"status":"error","status_message":"Movie not found"}"#;
    assert_eq!(
        read_movie_detail(text),
        Err(ApiError::Remote("error: Movie not found".to_string()))
    );
    let text = r#"{"status":"ok","status_message":"x","data":null}"#;
    assert_eq!(read_movie_list(text), Err(ApiError::MissingData));
}

#[test]
fn missing_payload() {
    let text = r#"{"status":"ok","status_message":"Query was successful"}"#;
    assert_eq!(open_body(text), Err(ApiError::MissingData));
    assert_eq!(read_movie_list(text), Err(ApiError::MissingData));
    assert_eq!(read_movie_detail(text), Err(ApiError::MissingData));
}

#[test]
fn wrong_payload_kind() {
    let detail = format!(
        r#"{{"status":"ok","status_message":"Query was successful","data":{{"movie":{}}}}}"#,
        movie_json(4)
    );
    assert_eq!(read_movie_list(&detail), Err(ApiError::WrongData));
    assert_eq!(read_movie_detail(&detail).unwrap().movie.id, 4);
    let list = list_body(1, 1);
    assert_eq!(read_movie_detail(&list), Err(ApiError::WrongData));
    assert_eq!(read_movie_list(&list).unwrap().movies.len(), 1);
}

#[test]
fn decode_errors() {
    assert!(matches!(open_body("not json"), Err(ApiError::Decode(_))));
    assert!(matches!(open_body(""), Err(ApiError::Decode(_))));
    assert!(matches!(open_body("[1,2]"), Err(ApiError::Decode(_))));
    assert!(matches!(
        open_body(r#"{"status_message":"no status"}"#),
        Err(ApiError::Decode(_))
    ));
    assert!(matches!(
        open_body(r#"{"status":"ok","status_message":"x","data":{"other":1}}"#),
        Err(ApiError::Decode(_))
    ));
    assert!(matches!(
        open_body(r#"{"status":"ok","status_message":"x","data":{"movie_count":-1,"limit":20,"page_number":1}}"#),
        Err(ApiError::Decode(_))
    ));
    assert!(matches!(
        open_body(r#"{"status":"ok","status_message":"x","data":{"movie_count":4294967296,"limit":20,"page_number":1}}"#),
        Err(ApiError::Decode(_))
    ));
    assert!(matches!(
        open_body(r#"{"status":"ok","status_message":"x","data":{"movie_count":1.5,"limit":20,"page_number":1}}"#),
        Err(ApiError::Decode(_))
    ));
}

#[test]
fn largest_counts_decode() {
    let text = r#"{"status":"ok","status_message":"x","data":{"movie_count":4294967295,"limit":0,"page_number":1,"movies":[]}}"#;
    let list = read_movie_list(text).unwrap();
    assert_eq!(list.movie_count, u32::MAX);
    assert_eq!(list.limit, 0);
}
