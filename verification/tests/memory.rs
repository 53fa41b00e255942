use wapo::memory::{find_value, mem_free, mem_usage, vm_peak, AllocatorStats, MemoryUsage};

const STATUS: &str = "Name:\twapod\nUmask:\t0022\nVmPeak:\t  123456 kB\nVmSize:\t  100000 kB\n";
const MEMINFO: &str = "MemTotal:       16303428 kB\nMemFree:         9876543 kB\nMemAvailable:   1 kB\n";

#[test]
fn reads_the_kernel_files() {
    assert_eq!(vm_peak(Some(STATUS)), Some(123456));
    assert_eq!(mem_free(Some(MEMINFO)), Some(9876543));
}

#[test]
fn gives_nothing_without_file_or_label() {
    assert_eq!(vm_peak(None), None);
    assert_eq!(mem_free(None), None);
    assert_eq!(vm_peak(Some("")), None);
    assert_eq!(vm_peak(Some(MEMINFO)), None);
    assert_eq!(mem_free(Some(STATUS)), None);
}

#[test]
fn first_label_decides() {
    assert_eq!(find_value("A: 1\nA: 2\n", "A:"), Some(1));
    assert_eq!(find_value("A: x\nA: 2\n", "A:"), None);
    assert_eq!(find_value("A:\nA: 2\n", "A:"), None);
}

#[test]
fn label_must_start_the_line() {
    assert_eq!(find_value(" A: 1\nxA: 2\nA: 3", "A:"), Some(3));
}

#[test]
fn second_word_is_the_value() {
    assert_eq!(find_value("A:7 kB\n", "A:"), None);
    assert_eq!(find_value("A:7 8\n", "A:"), Some(8));
    assert_eq!(find_value("A: \t\x0C 9", "A:"), Some(9));
}

#[test]
fn line_endings() {
    assert_eq!(find_value("B: 1\r\nA: 2\r\n", "A:"), Some(2));
    assert_eq!(find_value("A: 2\r", "A:"), Some(2));
    assert_eq!(find_value("\n\n\nA: 2", "A:"), Some(2));
    assert_eq!(find_value("B: 1\rA: 2", "A:"), None);
}

#[test]
fn numbers() {
    assert_eq!(find_value("A: +5", "A:"), Some(5));
    assert_eq!(find_value("A: 007", "A:"), Some(7));
    assert_eq!(find_value("A: +", "A:"), None);
    assert_eq!(find_value("A: ++5", "A:"), None);
    assert_eq!(find_value("A: -5", "A:"), None);
    assert_eq!(find_value("A: 5x", "A:"), None);
    let largest = format!("A: {}", usize::MAX);
    assert_eq!(find_value(&largest, "A:"), Some(usize::MAX));
    let too_large = format!("A: {}0", usize::MAX);
    assert_eq!(find_value(&too_large, "A:"), None);
    let one_more = format!("A: {}", usize::MAX as u128 + 1);
    assert_eq!(find_value(&one_more, "A:"), None);
}

#[test]
fn agrees_with_the_standard_library() {
    let texts = [
        STATUS,
        MEMINFO,
        "",
        "A:",
        "A: 1",
        "A: 1\r\n",
        "A:\u{a0}1 2",
        "A:\u{3000}x 4 5\n",
        "é\nA: 12 kB",
        "A: 18446744073709551616",
    ];
    for text in texts {
        for label in ["A:", "VmPeak:", "MemFree:", ""] {
            let expected = text
                .lines()
                .find(|line| line.starts_with(label))
                .and_then(|line| line.split_ascii_whitespace().nth(1))
                .and_then(|word| word.parse::<usize>().ok());
            assert_eq!(find_value(text, label), expected);
        }
    }
}

#[test]
fn file_can_be_read_in_parts() {
    let (first, second) = ("A: 1\nB: 2\n", "B: 3\nC: 4\n");
    let whole = format!("{first}{second}");
    assert_eq!(find_value(&whole, "B:"), find_value(first, "B:"));
    assert_eq!(find_value(&whole, "C:"), find_value(second, "C:"));
}

#[test]
fn written_values_are_read() {
    for n in [0usize, 1, 9, 10, 4096, usize::MAX] {
        let text = format!("Name: x\nVmPeak:\t{n:>8} kB\nVmPeak: 1 kB\n");
        assert_eq!(vm_peak(Some(&text)), Some(n));
    }
}

#[test]
fn report() {
    let stats = AllocatorStats { current: 1, spike: 2, peak: 3 };
    assert_eq!(
        mem_usage(stats, Some(STATUS), Some(MEMINFO)),
        MemoryUsage {
            rust_used: 1,
            rust_peak: 3,
            rust_spike: 2,
            peak: 123456,
            free: 9876543,
        }
    );
}

#[test]
fn report_without_files() {
    let stats = AllocatorStats { current: 10, spike: 20, peak: 30 };
    assert_eq!(
        mem_usage(stats, None, Some("MemFree: much")),
        MemoryUsage {
            rust_used: 10,
            rust_peak: 30,
            rust_spike: 20,
            peak: 0,
            free: 0,
        }
    );
}
