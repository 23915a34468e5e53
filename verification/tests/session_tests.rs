use wsproxy::config::Config;
use wsproxy::session::AddrPool;

#[test]
fn fallback_pool_order() {
    // the parsed target 10.0.0.1:9 refuses; the configured fallback
    // proxy.example:443 is dialled next and the pool then ends
    let config = Config::new(vec![0u8; 16], b"proxy.example".to_vec(), 443);
    let mut pool = AddrPool::new(b"10.0.0.1".to_vec(), 9, &config);
    let (host, port) = pool.next_candidate().unwrap();
    assert_eq!(host, b"10.0.0.1".to_vec());
    assert_eq!(port, 9);
    // the dial refused: move to the fallback
    let (host2, port2) = pool.next_candidate().unwrap();
    assert_eq!(host2, b"proxy.example".to_vec());
    assert_eq!(port2, 443);
    // both entries failed: nothing is left
    assert!(pool.next_candidate().is_none());
}
