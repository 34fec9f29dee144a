use contracts::amm_pool::ConstantProductPoolContract;
use contracts::classroom_paymaster::ClassroomPaymasterContract;
use contracts::playground_cache::{CacheError, PlaygroundCacheContract};
use contracts::proxy::{ProxyContract, ProxyError};
use contracts::quiz_assessment::QuizAssessmentContract;
use contracts::storage_lesson::StorageLessonContract;

#[test]
fn test_caching_layer() {
    let mut c = PlaygroundCacheContract::new();
    let admin = 1;
    c.initialize(admin).unwrap();
    let value = [1u8; 32];
    c.set_cache(admin, "test_key", value).unwrap();
    assert_eq!(c.get_cache("test_key"), Ok(value));
}

#[test]
fn cache_refusals() {
    let mut c = PlaygroundCacheContract::new();
    assert_eq!(c.set_cache(1, "k", [0; 32]), Err(CacheError::NotInitialized));
    c.initialize(1).unwrap();
    assert_eq!(c.initialize(1), Err(CacheError::AlreadyInitialized));
    assert_eq!(c.set_cache(2, "k", [0; 32]), Err(CacheError::NotAdmin));
    assert_eq!(c.get_cache("k"), Err(CacheError::NotFound));
}

#[test]
fn proxy_upgrade_and_admin_transfer() {
    let mut p = ProxyContract::new();
    assert_eq!(p.get_implementation(), Err(ProxyError::NotInitialized));
    assert_eq!(p.upgrade_to(1, [2; 32]), Err(ProxyError::NotInitialized));
    p.init(1, [1; 32]).unwrap();
    assert_eq!(p.init(1, [1; 32]), Err(ProxyError::AlreadyInitialized));
    assert_eq!(p.get_implementation(), Ok([1; 32]));
    assert_eq!(p.upgrade_to(2, [2; 32]), Err(ProxyError::Unauthorized));
    p.upgrade_to(1, [2; 32]).unwrap();
    assert_eq!(p.get_implementation(), Ok([2; 32]));
    p.transfer_admin(1, 3).unwrap();
    assert_eq!(p.upgrade_to(1, [4; 32]), Err(ProxyError::Unauthorized));
    p.upgrade_to(3, [4; 32]).unwrap();
    assert_eq!(p.get_implementation(), Ok([4; 32]));
}

#[test]
fn storage_lesson_set_get() {
    let mut s = StorageLessonContract::new();
    assert_eq!(s.get("a"), None);
    s.set("a", 5);
    s.set("b", 6);
    s.set("a", 7);
    assert_eq!(s.get("a"), Some(7));
    assert_eq!(s.get("b"), Some(6));
}

#[test]
fn teaching_stubs() {
    assert_eq!(ConstantProductPoolContract::swap(1, 2, 42), 42);
    assert_eq!(ConstantProductPoolContract::get_exchange_rate(), 100);
    assert!(QuizAssessmentContract::submit_answer(1, [0; 32]));
    ClassroomPaymasterContract::sponsor_gas(1);
}
