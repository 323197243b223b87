use vstd::prelude::*;

verus! {

/// The ports that a fetch never connects to: well-known ports of mail, file
/// transfer, remote shells and other protocols that a request could be
/// smuggled into.
pub open spec fn is_blocked_port(p: u16) -> bool {
    p == 1
    || p == 7
    || p == 9
    || p == 11
    || p == 13
    || p == 15
    || p == 17
    || p == 19
    || p == 20
    || p == 21
    || p == 22
    || p == 23
    || p == 25
    || p == 37
    || p == 42
    || p == 43
    || p == 53
    || p == 69
    || p == 77
    || p == 79
    || p == 87
    || p == 95
    || p == 101
    || p == 102
    || p == 103
    || p == 104
    || p == 109
    || p == 110
    || p == 111
    || p == 113
    || p == 115
    || p == 117
    || p == 119
    || p == 123
    || p == 135
    || p == 137
    || p == 139
    || p == 143
    || p == 161
    || p == 179
    || p == 389
    || p == 427
    || p == 465
    || p == 512
    || p == 513
    || p == 514
    || p == 515
    || p == 526
    || p == 530
    || p == 531
    || p == 532
    || p == 540
    || p == 548
    || p == 554
    || p == 556
    || p == 563
    || p == 587
    || p == 601
    || p == 636
    || p == 989
    || p == 990
    || p == 993
    || p == 995
    || p == 1719
    || p == 1720
    || p == 1723
    || p == 2049
    || p == 3659
    || p == 4045
    || p == 5060
    || p == 5061
    || p == 6000
    || p == 6566
    || p == 6665
    || p == 6666
    || p == 6667
    || p == 6668
    || p == 6669
    || p == 6697
    || p == 10080
}

/// Whether `port` is on the blocked-port list.
pub fn is_bad_port(port: u16) -> (r: bool)
    ensures
        r == is_blocked_port(port),
{
    match port {
        1 | 7 | 9 | 11 | 13 | 15 | 17 | 19 | 20 | 21 | 22 | 23 | 25 | 37 | 42 | 43 | 53 | 69 | 77 | 79 | 87 | 95 | 101 | 102 | 103 | 104 | 109 | 110 | 111 | 113 | 115 | 117 | 119 | 123 | 135 | 137 | 139 | 143 | 161 | 179 | 389 | 427 | 465 | 512 | 513 | 514 | 515 | 526 | 530 | 531 | 532 | 540 | 548 | 554 | 556 | 563 | 587 | 601 | 636 | 989 | 990 | 993 | 995 | 1719 | 1720 | 1723 | 2049 | 3659 | 4045 | 5060 | 5061 | 6000 | 6566 | 6665 | 6666 | 6667 | 6668 | 6669 | 6697 | 10080 => true,
        _ => false,
    }
}

} // verus!
