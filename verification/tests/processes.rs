use nightingale::application::monitoring::{
    chars_contain, matches_query, process_order, select_processes, text_precedes_chars,
    ProcessCandidate, ProcessOrder,
};

fn candidate(pid: u32, name: &str, memory_bytes: u64) -> ProcessCandidate {
    ProcessCandidate { pid, name: name.to_string(), memory_bytes }
}

fn sample() -> Vec<ProcessCandidate> {
    vec![
        candidate(10, "Bash", 300),
        candidate(2045, "python3", 500),
        candidate(77, "bash", 300),
        candidate(3, "Zed", 100),
    ]
}

#[test]
fn sort_keys_select_the_listing_order() {
    assert_eq!(process_order(Some("memory")), ProcessOrder::Memory);
    assert_eq!(process_order(Some("name")), ProcessOrder::Name);
    assert_eq!(process_order(Some("cpu")), ProcessOrder::Cpu);
    assert_eq!(process_order(Some("Memory")), ProcessOrder::Cpu);
    assert_eq!(process_order(None), ProcessOrder::Cpu);
}

#[test]
fn search_ignores_case_and_keeps_memory_ties_in_given_order() {
    let list = select_processes(Some("BASH"), Some("memory"), &sample());
    assert_eq!(list, vec![0, 2]);
}

#[test]
fn search_matches_the_decimal_process_id() {
    assert_eq!(select_processes(Some("20"), Some("name"), &sample()), vec![1]);
    assert_eq!(select_processes(Some("7"), None, &sample()), vec![2]);
}

#[test]
fn names_are_listed_in_string_order() {
    assert_eq!(select_processes(None, Some("name"), &sample()), vec![0, 3, 2, 1]);
}

#[test]
fn memory_order_puts_the_largest_first() {
    assert_eq!(select_processes(Some(""), Some("memory"), &sample()), vec![1, 0, 2, 3]);
}

#[test]
fn cpu_order_keeps_the_given_order_for_the_caller() {
    assert_eq!(select_processes(None, None, &sample()), vec![0, 1, 2, 3]);
    assert_eq!(select_processes(Some("no such process"), None, &sample()), Vec::<usize>::new());
}

#[test]
fn search_lowercases_beyond_ascii() {
    let list = vec![candidate(5, "ÉCOLE-daemon", 1), candidate(6, "other", 1)];
    assert_eq!(select_processes(Some("École"), Some("name"), &list), vec![0]);
}

#[test]
fn matching_takes_the_lowercased_texts() {
    assert!(matches_query("", "anything", 1));
    assert!(matches_query("sh", "bash", 1));
    assert!(matches_query("9", "bash", 19));
    assert!(!matches_query("zz", "bash", 1));
    assert!(!matches_query("Sh", "bash", 1));
}

#[test]
fn containment_and_text_order_on_characters() {
    let chars = |s: &str| s.chars().collect::<Vec<char>>();
    assert!(chars_contain(&chars("python3"), &chars("hon")));
    assert!(chars_contain(&chars("abc"), &chars("")));
    assert!(!chars_contain(&chars("ab"), &chars("abc")));
    assert!(text_precedes_chars(&chars("ab"), &chars("abc")));
    assert!(text_precedes_chars(&chars("Zed"), &chars("bash")));
    assert!(!text_precedes_chars(&chars("bash"), &chars("bash")));
    assert!(!text_precedes_chars(&chars("b"), &chars("a")));
}
