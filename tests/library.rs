use rust_grammar::basics::{
    add, calculate_length, change_string, day_name, find_max, grade, largest, number_kind,
    time_period, Person,
};
use rust_grammar::config::{
    parse_config, parse_config_value, ConfigError, ConfigFormat, ConfigValueEnum,
    EMPTY_ARRAY_MESSAGE, EMPTY_OBJECT_MESSAGE, EMPTY_STRING_MESSAGE, NOT_A_STRING_MESSAGE,
};
use rust_grammar::data_structures::{BloomFilter, Queue, SkipList};
use rust_grammar::exercises::{
    add_suffix, count_characters, filter_even_numbers, longest, parse_number, Book, ListNode,
    TextAnalyzer, NOT_IMPLEMENTED,
};
use rust_grammar::logging::{
    format_entry, log_file_path, needs_rotation, rotated_file_name, rotation_steps, should_log,
    LogConfig, LogEntry, LogLevel, RotateStep,
};
use std::collections::HashMap;

#[test]
fn queue_returns_last_added() {
    let mut q = Queue::new();
    q.enqueue(1);
    q.enqueue(2);
    q.enqueue(3);
    assert_eq!(q.dequeue(), Some(3));
    assert_eq!(q.dequeue(), Some(2));
    assert_eq!(q.dequeue(), Some(1));
    assert_eq!(q.dequeue(), None);
}

#[test]
fn skip_list_search() {
    let mut s = SkipList::new();
    assert!(!s.search(&5));
    s.insert(5);
    s.insert(9);
    assert!(s.search(&5));
    assert!(s.search(&9));
    assert!(!s.search(&7));
}

#[test]
fn bloom_filter_finds_inserted() {
    let mut f = BloomFilter::new();
    f.init(1000);
    f.insert(&"hello");
    assert!(f.search(&"hello"));
    let mut g = BloomFilter::new();
    g.init(1000);
    g.insert_hashed(1234);
    assert!(g.search_hashed(1234));
    assert!(g.search_hashed(234));
    assert!(!g.search_hashed(235));
    let mut short = BloomFilter::new();
    short.init(10);
    short.insert_hashed(1005);
    assert!(short.search_hashed(5));
}

#[test]
fn config_parsing() {
    for format in [ConfigFormat::Json, ConfigFormat::Toml, ConfigFormat::Yaml] {
        match parse_config_value(format, "test_config").unwrap() {
            ConfigValueEnum::String(s) => assert_eq!(s, "test_config"),
            _ => panic!("expected a string value"),
        }
    }
    assert_eq!(parse_config(ConfigFormat::Json, "{\"a\": 1}").unwrap(), "{\"a\": 1}");
}

#[test]
fn config_validation() {
    let ok = ConfigValueEnum::<String>::String("x".to_string());
    assert!(ok.validate().is_ok());
    let e = ConfigValueEnum::<String>::String(String::new()).validate().unwrap_err();
    assert_eq!(e.message, EMPTY_STRING_MESSAGE);
    assert_eq!(e.message, "字符串值不能为空");
    let e = ConfigValueEnum::<String>::Array(vec![]).validate().unwrap_err();
    assert_eq!(e.message, EMPTY_ARRAY_MESSAGE);
    let e = ConfigValueEnum::<String>::Object(HashMap::new()).validate().unwrap_err();
    assert_eq!(e.message, EMPTY_OBJECT_MESSAGE);
    let mut m = HashMap::new();
    m.insert("k".to_string(), "v".to_string());
    assert!(ConfigValueEnum::<String>::Object(m).validate().is_ok());
    assert!(ConfigValueEnum::<String>::Boolean(false).validate().is_ok());
    assert!(ConfigValueEnum::<String>::Array(vec!["a".to_string()]).validate().is_ok());
}

#[test]
fn config_text_and_default() {
    match ConfigValueEnum::<String>::default_value() {
        ConfigValueEnum::String(s) => assert_eq!(s, "default"),
        _ => panic!("expected a string value"),
    }
    let v = ConfigValueEnum::<String>::String("Hello World".to_string());
    assert_eq!(v.to_text().unwrap(), "Hello World");
    assert_eq!(String::try_from(&v).unwrap(), "Hello World");
    assert!(String::try_from(&ConfigValueEnum::<String>::Number("1.5".to_string())).is_err());
    let e = ConfigValueEnum::<String>::Boolean(true).to_text().unwrap_err();
    assert_eq!(e.message, NOT_A_STRING_MESSAGE);
    assert_eq!(e.message, "无法将配置值转换为字符串");
    assert_eq!(ConfigError::new("bad").to_string(), "配置错误: bad");
}

#[test]
fn log_filtering() {
    assert!(should_log(&LogLevel::Error, &LogLevel::Info));
    assert!(should_log(&LogLevel::Info, &LogLevel::Info));
    assert!(!should_log(&LogLevel::Debug, &LogLevel::Info));
    assert!(!should_log(&LogLevel::Warn, &LogLevel::Error));
    assert!(should_log(&LogLevel::Debug, &LogLevel::Debug));
}

#[test]
fn log_lines() {
    let entry = LogEntry {
        level: LogLevel::Warn,
        message: "disk almost full".to_string(),
        timestamp: 1700000000,
        dest_path: "logs/app.log".to_string(),
    };
    assert_eq!(format_entry(&entry), "1700000000 [WARN] disk almost full");
    let entry = LogEntry { level: LogLevel::Debug, message: String::new(), timestamp: 0, dest_path: String::new() };
    assert_eq!(format_entry(&entry), "0 [DEBUG] ");
    assert_eq!(log_file_path("logs"), "logs/app.log");
    assert_eq!(LogLevel::Error.to_string(), "ERROR");
}

#[test]
fn log_config_and_rotation() {
    let c = LogConfig::default();
    assert_eq!(c.min_level, LogLevel::Info);
    assert_eq!((c.max_file_size, c.max_files, c.log_dir.as_str()), (1048576, 5, "logs"));
    assert!(needs_rotation(1048577, &c));
    assert!(!needs_rotation(1048576, &c));
    assert_eq!(rotated_file_name("app", 3, "log"), "app.3.log");
    assert_eq!(rotated_file_name("app", 10, ""), "app.10.");
    assert_eq!(
        rotation_steps(5),
        vec![
            RotateStep::Remove(4),
            RotateStep::Rename(3, 4),
            RotateStep::Rename(2, 3),
            RotateStep::Rename(1, 2)
        ]
    );
    assert_eq!(rotation_steps(2), vec![RotateStep::Remove(1)]);
    assert!(rotation_steps(1).is_empty());
    assert!(rotation_steps(0).is_empty());
}

#[test]
fn exercise_strings() {
    let mut s = String::from("Hello");
    add_suffix(&mut s, ", World!");
    assert_eq!(s, "Hello, World!");
    assert_eq!(rust_grammar::exercises::calculate_length(&"Hello, Rust!".to_string()), 12);
    assert_eq!(rust_grammar::exercises::calculate_length(&"\u{e9}".to_string()), 2);
    assert_eq!(longest("short", "longer string"), "longer string");
    assert_eq!(longest("abcd", "xyz"), "abcd");
    assert_eq!(longest("ab", "cd"), "cd");
}

#[test]
fn book_behaviour() {
    let mut book = Book::new("Rust".to_string(), "Steve".to_string(), 500);
    assert_eq!((book.title.as_str(), book.author.as_str(), book.pages), ("Rust", "Steve", 500));
    assert!(book.available);
    assert_eq!(book.get_info(), "书名: Rust, 作者: Steve, 页数: 500, 状态: 可用");
    assert_eq!(book.borrow_book(), Ok(()));
    assert!(!book.available);
    assert_eq!(book.get_info(), "书名: Rust, 作者: Steve, 页数: 500, 状态: 已借");
    assert_eq!(book.borrow_book(), Err(NOT_IMPLEMENTED.to_string()));
    assert_eq!(NOT_IMPLEMENTED, "未实现");
    assert!(!book.available);
    book.return_book();
    assert!(book.available);
}

#[test]
fn number_parsing() {
    assert_eq!(parse_number("42"), Ok(42));
    assert_eq!(parse_number("123"), Ok(123));
    assert_eq!(parse_number("-7"), Ok(-7));
    assert_eq!(parse_number("+8"), Ok(8));
    assert_eq!(parse_number("2147483647"), Ok(i32::MAX));
    assert_eq!(parse_number("-2147483648"), Ok(i32::MIN));
    assert!(parse_number("2147483648").is_err());
    assert!(parse_number("hello").is_err());
    assert!(parse_number("").is_err());
    assert!(parse_number(" 1").is_err());
    assert!(parse_number("-").is_err());
    assert_eq!(parse_number("abc"), Err("未实现".to_string()));
}

#[test]
fn even_filter() {
    assert_eq!(filter_even_numbers(vec![1, 2, 3, 4, 5, 6, 7, 8, 9, 10]), vec![2, 4, 6, 8, 10]);
    assert_eq!(filter_even_numbers(vec![-3, -2, 0, 7]), vec![-2, 0]);
    assert!(filter_even_numbers(vec![]).is_empty());
}

#[test]
fn character_counts() {
    let counts = count_characters("hello world");
    assert_eq!(
        counts,
        vec![('h', 1), ('e', 1), ('l', 3), ('o', 2), (' ', 1), ('w', 1), ('r', 1), ('d', 1)]
    );
    assert!(count_characters("").is_empty());
    assert!(count_characters("héé").iter().all(|&(_, n)| n > 0));
}

#[test]
fn text_analyzer() {
    let text = "Hello world! This is a test string with multiple words.";
    let analyzer = TextAnalyzer::new(text);
    assert_eq!(analyzer.word_count(), 10);
    assert_eq!(analyzer.longest_word(), Some("multiple"));
    let a = TextAnalyzer::new("  ab\tcd \n ef  ");
    assert_eq!(a.word_count(), 3);
    assert_eq!(a.longest_word(), Some("ef"));
    assert_eq!(TextAnalyzer::new("   ").word_count(), 0);
    assert_eq!(TextAnalyzer::new("").longest_word(), None);
}

#[test]
fn list_node() {
    let mut n = ListNode::new(1);
    assert!(n.next.is_none());
    n.add_next(2);
    assert_eq!(n.next.as_ref().unwrap().value, 2);
}

#[test]
fn basics() {
    let mut p = Person::new("Li".to_string(), 28, "Beijing".to_string());
    assert_eq!(p.introduce(), "我叫Li，今年28岁，来自Beijing");
    p.set_age(29);
    assert_eq!(p.get_age(), 29);
    assert_eq!(add(5, 3), 8);
    assert_eq!(find_max(&[3, 7, 1, 9, 2]), Some(&9));
    assert_eq!(find_max::<i32>(&[]), None);
    assert_eq!(largest(&[34, 50, 25, 100, 65]), 100);
    assert_eq!(largest(&['y', 'm', 'a', 'q']), 'y');
    assert_eq!(calculate_length(&"world".to_string()), 5);
    let mut s = String::from("hello");
    change_string(&mut s);
    assert_eq!(s, "hello, world!");
}

#[test]
fn classifications() {
    assert_eq!(day_name(3), "星期三");
    assert_eq!(day_name(7), "周末");
    assert_eq!(day_name(0), "无效的日期");
    assert_eq!(time_period(14), "下午");
    assert_eq!(time_period(0), "深夜");
    assert_eq!(time_period(24), "无效时间");
    assert_eq!(grade(85), "良好");
    assert_eq!(grade(90), "优秀");
    assert_eq!(grade(59), "不及格");
    assert_eq!(number_kind(4), "正偶数");
    assert_eq!(number_kind(-1), "负数");
    assert_eq!(number_kind(0), "零");
    assert_eq!(number_kind(3), "正奇数");
}

#[test]
fn references_and_summaries() {
    use_references();
}

fn use_references() {
    let mut p = rust_grammar::references::Person::new("张三".to_string(), 25);
    assert_eq!(p.get_info(), "姓名: 张三, 年龄: 25");
    p.birthday();
    assert_eq!(p.age, 26);
    assert_eq!(p.get_name(), "张三");
    let mut s = String::from("Hello");
    rust_grammar::references::mark_modified(&mut s);
    assert_eq!(s, "Hello - 已修改");
    let mut cache = rust_grammar::references::Cache::new();
    cache.set("user:1".to_string(), "张三".to_string());
    assert_eq!(cache.get("user:1").unwrap(), "张三");
    assert!(!cache.contains_key("user:3"));
    let t = rust_grammar::advanced::returns_summarizable();
    assert_eq!(t.content, "当然，你可能已经知道了");
}
