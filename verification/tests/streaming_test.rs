use selector4nix::decimal::{parse_usize, usize_to_decimal};
use selector4nix::streaming::{
    classify_response, initial_range_header, parse_content_range_total, range_header,
    BoundedBody, ResponsePlan, StreamHttpBodyError,
};

#[test]
fn full_response_keeps_content_length() {
    assert_eq!(
        classify_response(200, None, Some(42)),
        Ok(ResponsePlan::Full { content_length: Some(42) })
    );
}

#[test]
fn partial_response_is_chunked() {
    let plan = classify_response(206, Some("bytes 0-4194303/10000000"), Some(4194304)).unwrap();
    assert_eq!(
        plan,
        ResponsePlan::Chunked { bytes_total: 10000000, initial_chunk_len: 4194304 }
    );
    assert_eq!(plan.content_length(), Some(10000000));
}

#[test]
fn partial_response_needs_headers() {
    assert_eq!(
        classify_response(206, None, Some(1)),
        Err(StreamHttpBodyError::InvalidResponse {
            message: "206 Partial Content response is missing a valid Content-Range header"
        })
    );
    assert_eq!(
        classify_response(206, Some("bytes 0-1/*"), Some(1)),
        Err(StreamHttpBodyError::InvalidResponse {
            message: "206 Partial Content response is missing a valid Content-Range header"
        })
    );
    assert_eq!(
        classify_response(206, Some("bytes 0-1/2"), None),
        Err(StreamHttpBodyError::InvalidResponse {
            message: "206 Partial Content response is missing Content-Length"
        })
    );
}

#[test]
fn missing_and_other_statuses() {
    assert_eq!(classify_response(404, None, None), Err(StreamHttpBodyError::NotFound));
    assert_eq!(classify_response(403, None, None), Err(StreamHttpBodyError::NotFound));
    assert_eq!(
        classify_response(500, None, None),
        Err(StreamHttpBodyError::InvalidStatus { status: 500 })
    );
}

#[test]
fn content_range_total_is_after_last_slash() {
    assert_eq!(parse_content_range_total("bytes 0-9/100"), Some(100));
    assert_eq!(parse_content_range_total("a/b/+7"), Some(7));
    assert_eq!(parse_content_range_total("100"), None);
    assert_eq!(parse_content_range_total("bytes 0-9/"), None);
}

#[test]
fn usize_parsing_matches_std() {
    for s in ["0", "007", "+5", "+", "", "-1", "12a", "18446744073709551615", "18446744073709551616", "99999999999999999999999"] {
        assert_eq!(parse_usize(s), s.parse::<usize>().ok(), "{s}");
    }
}

#[test]
fn usize_rendering_matches_std() {
    for n in [0usize, 7, 10, 99, 100, 4194303, usize::MAX] {
        assert_eq!(usize_to_decimal(n), n.to_string());
    }
}

#[test]
fn range_headers() {
    assert_eq!(range_header(0, 1), "bytes=0-0");
    assert_eq!(range_header(100, 50), "bytes=100-149");
    assert_eq!(initial_range_header(), "bytes=0-4194303");
}

#[test]
fn bounded_body_cuts_at_length() {
    let mut b = BoundedBody::new(10);
    assert!(!b.is_complete());
    assert_eq!(b.on_piece(4), 4);
    assert_eq!(b.remaining(), 6);
    assert_eq!(b.on_piece(8), 6);
    assert!(b.is_complete());
    assert_eq!(b.on_piece(3), 0);
}

#[test]
fn announced_total_reads_back() {
    for total in [0usize, 1, 4194304, 10000000, usize::MAX] {
        for prefix in ["bytes 0-4194303", "bytes */", ""] {
            let value = format!("{prefix}/{}", usize_to_decimal(total));
            assert_eq!(parse_content_range_total(&value), Some(total), "{value}");
        }
    }
}
