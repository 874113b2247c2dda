//! The Marching Cubes triangulation table and the two corner-index tables.
//!
//! For each of the 256 corner-sign configurations, [`spec_row`] gives the
//! ordered list of cube-edge indices whose groups of three form the
//! triangles of that configuration; [`tri_row`] returns the same list at
//! run time.  Edges are numbered 0..12; [`spec_corner_a`] and
//! [`spec_corner_b`] map an edge to the two corners (0..8) it connects, in
//! the same corner enumeration the extractor uses for its offsets:
//! corner `n` has offset `(x, y, z)` with `x = 1` for `n` in `{1,2,5,6}`,
//! `y = 1` for `n` in `{2,3,6,7}` and `z = 1` for `n` in `{4,5,6,7}`.
//! The table and that enumeration are a matched pair and must change
//! together.

use vstd::prelude::*;

verus! {

#[verifier::opaque]
pub open spec fn spec_row_a(c: int) -> Seq<u8> {
    if c == 0 {
        Seq::<u8>::empty()
    } else if c == 1 {
        seq![0u8, 8, 3]
    } else if c == 2 {
        seq![0u8, 1, 9]
    } else if c == 3 {
        seq![1u8, 8, 3, 9, 8, 1]
    } else if c == 4 {
        seq![1u8, 2, 10]
    } else if c == 5 {
        seq![0u8, 8, 3, 1, 2, 10]
    } else if c == 6 {
        seq![9u8, 2, 10, 0, 2, 9]
    } else if c == 7 {
        seq![2u8, 8, 3, 2, 10, 8, 10, 9, 8]
    } else if c == 8 {
        seq![3u8, 11, 2]
    } else if c == 9 {
        seq![0u8, 11, 2, 8, 11, 0]
    } else if c == 10 {
        seq![1u8, 9, 0, 2, 3, 11]
    } else if c == 11 {
        seq![1u8, 11, 2, 1, 9, 11, 9, 8, 11]
    } else if c == 12 {
        seq![3u8, 10, 1, 11, 10, 3]
    } else if c == 13 {
        seq![0u8, 10, 1, 0, 8, 10, 8, 11, 10]
    } else if c == 14 {
        seq![3u8, 9, 0, 3, 11, 9, 11, 10, 9]
    } else if c == 15 {
        seq![9u8, 8, 10, 10, 8, 11]
    } else if c == 16 {
        seq![4u8, 7, 8]
    } else if c == 17 {
        seq![4u8, 3, 0, 7, 3, 4]
    } else if c == 18 {
        seq![0u8, 1, 9, 8, 4, 7]
    } else if c == 19 {
        seq![4u8, 1, 9, 4, 7, 1, 7, 3, 1]
    } else if c == 20 {
        seq![1u8, 2, 10, 8, 4, 7]
    } else if c == 21 {
        seq![3u8, 4, 7, 3, 0, 4, 1, 2, 10]
    } else if c == 22 {
        seq![9u8, 2, 10, 9, 0, 2, 8, 4, 7]
    } else if c == 23 {
        seq![2u8, 10, 9, 2, 9, 7, 2, 7, 3, 7, 9, 4]
    } else if c == 24 {
        seq![8u8, 4, 7, 3, 11, 2]
    } else if c == 25 {
        seq![11u8, 4, 7, 11, 2, 4, 2, 0, 4]
    } else if c == 26 {
        seq![9u8, 0, 1, 8, 4, 7, 2, 3, 11]
    } else if c == 27 {
        seq![4u8, 7, 11, 9, 4, 11, 9, 11, 2, 9, 2, 1]
    } else if c == 28 {
        seq![3u8, 10, 1, 3, 11, 10, 7, 8, 4]
    } else if c == 29 {
        seq![1u8, 11, 10, 1, 4, 11, 1, 0, 4, 7, 11, 4]
    } else if c == 30 {
        seq![4u8, 7, 8, 9, 0, 11, 9, 11, 10, 11, 0, 3]
    } else if c == 31 {
        seq![4u8, 7, 11, 4, 11, 9, 9, 11, 10]
    } else if c == 32 {
        seq![9u8, 5, 4]
    } else if c == 33 {
        seq![9u8, 5, 4, 0, 8, 3]
    } else if c == 34 {
        seq![0u8, 5, 4, 1, 5, 0]
    } else if c == 35 {
        seq![8u8, 5, 4, 8, 3, 5, 3, 1, 5]
    } else if c == 36 {
        seq![1u8, 2, 10, 9, 5, 4]
    } else if c == 37 {
        seq![3u8, 0, 8, 1, 2, 10, 4, 9, 5]
    } else if c == 38 {
        seq![5u8, 2, 10, 5, 4, 2, 4, 0, 2]
    } else if c == 39 {
        seq![2u8, 10, 5, 3, 2, 5, 3, 5, 4, 3, 4, 8]
    } else if c == 40 {
        seq![9u8, 5, 4, 2, 3, 11]
    } else if c == 41 {
        seq![0u8, 11, 2, 0, 8, 11, 4, 9, 5]
    } else if c == 42 {
        seq![0u8, 5, 4, 0, 1, 5, 2, 3, 11]
    } else if c == 43 {
        seq![2u8, 1, 5, 2, 5, 8, 2, 8, 11, 4, 8, 5]
    } else if c == 44 {
        seq![10u8, 3, 11, 10, 1, 3, 9, 5, 4]
    } else if c == 45 {
        seq![4u8, 9, 5, 0, 8, 1, 8, 10, 1, 8, 11, 10]
    } else if c == 46 {
        seq![5u8, 4, 0, 5, 0, 11, 5, 11, 10, 11, 0, 3]
    } else if c == 47 {
        seq![5u8, 4, 8, 5, 8, 10, 10, 8, 11]
    } else if c == 48 {
        seq![9u8, 7, 8, 5, 7, 9]
    } else if c == 49 {
        seq![9u8, 3, 0, 9, 5, 3, 5, 7, 3]
    } else if c == 50 {
        seq![0u8, 7, 8, 0, 1, 7, 1, 5, 7]
    } else if c == 51 {
        seq![1u8, 5, 3, 3, 5, 7]
    } else if c == 52 {
        seq![9u8, 7, 8, 9, 5, 7, 10, 1, 2]
    } else if c == 53 {
        seq![10u8, 1, 2, 9, 5, 0, 5, 3, 0, 5, 7, 3]
    } else if c == 54 {
        seq![8u8, 0, 2, 8, 2, 5, 8, 5, 7, 10, 5, 2]
    } else if c == 55 {
        seq![2u8, 10, 5, 2, 5, 3, 3, 5, 7]
    } else if c == 56 {
        seq![7u8, 9, 5, 7, 8, 9, 3, 11, 2]
    } else if c == 57 {
        seq![9u8, 5, 7, 9, 7, 2, 9, 2, 0, 2, 7, 11]
    } else if c == 58 {
        seq![2u8, 3, 11, 0, 1, 8, 1, 7, 8, 1, 5, 7]
    } else if c == 59 {
        seq![11u8, 2, 1, 11, 1, 7, 7, 1, 5]
    } else if c == 60 {
        seq![9u8, 5, 8, 8, 5, 7, 10, 1, 3, 10, 3, 11]
    } else if c == 61 {
        seq![5u8, 7, 0, 5, 0, 9, 7, 11, 0, 1, 0, 10, 11, 10, 0]
    } else if c == 62 {
        seq![11u8, 10, 0, 11, 0, 3, 10, 5, 0, 8, 0, 7, 5, 7, 0]
    } else {
        seq![11u8, 10, 5, 7, 11, 5]
    }
}

#[verifier::opaque]
pub open spec fn spec_row_b(c: int) -> Seq<u8> {
    if c == 64 {
        seq![10u8, 6, 5]
    } else if c == 65 {
        seq![0u8, 8, 3, 5, 10, 6]
    } else if c == 66 {
        seq![9u8, 0, 1, 5, 10, 6]
    } else if c == 67 {
        seq![1u8, 8, 3, 1, 9, 8, 5, 10, 6]
    } else if c == 68 {
        seq![1u8, 6, 5, 2, 6, 1]
    } else if c == 69 {
        seq![1u8, 6, 5, 1, 2, 6, 3, 0, 8]
    } else if c == 70 {
        seq![9u8, 6, 5, 9, 0, 6, 0, 2, 6]
    } else if c == 71 {
        seq![5u8, 9, 8, 5, 8, 2, 5, 2, 6, 3, 2, 8]
    } else if c == 72 {
        seq![2u8, 3, 11, 10, 6, 5]
    } else if c == 73 {
        seq![11u8, 0, 8, 11, 2, 0, 10, 6, 5]
    } else if c == 74 {
        seq![0u8, 1, 9, 2, 3, 11, 5, 10, 6]
    } else if c == 75 {
        seq![5u8, 10, 6, 1, 9, 2, 9, 11, 2, 9, 8, 11]
    } else if c == 76 {
        seq![6u8, 3, 11, 6, 5, 3, 5, 1, 3]
    } else if c == 77 {
        seq![0u8, 8, 11, 0, 11, 5, 0, 5, 1, 5, 11, 6]
    } else if c == 78 {
        seq![3u8, 11, 6, 0, 3, 6, 0, 6, 5, 0, 5, 9]
    } else if c == 79 {
        seq![6u8, 5, 9, 6, 9, 11, 11, 9, 8]
    } else if c == 80 {
        seq![5u8, 10, 6, 4, 7, 8]
    } else if c == 81 {
        seq![4u8, 3, 0, 4, 7, 3, 6, 5, 10]
    } else if c == 82 {
        seq![1u8, 9, 0, 5, 10, 6, 8, 4, 7]
    } else if c == 83 {
        seq![10u8, 6, 5, 1, 9, 7, 1, 7, 3, 7, 9, 4]
    } else if c == 84 {
        seq![6u8, 1, 2, 6, 5, 1, 4, 7, 8]
    } else if c == 85 {
        seq![1u8, 2, 5, 5, 2, 6, 3, 0, 4, 3, 4, 7]
    } else if c == 86 {
        seq![8u8, 4, 7, 9, 0, 5, 0, 6, 5, 0, 2, 6]
    } else if c == 87 {
        seq![7u8, 3, 9, 7, 9, 4, 3, 2, 9, 5, 9, 6, 2, 6, 9]
    } else if c == 88 {
        seq![3u8, 11, 2, 7, 8, 4, 10, 6, 5]
    } else if c == 89 {
        seq![5u8, 10, 6, 4, 7, 2, 4, 2, 0, 2, 7, 11]
    } else if c == 90 {
        seq![0u8, 1, 9, 4, 7, 8, 2, 3, 11, 5, 10, 6]
    } else if c == 91 {
        seq![9u8, 2, 1, 9, 11, 2, 9, 4, 11, 7, 11, 4, 5, 10, 6]
    } else if c == 92 {
        seq![8u8, 4, 7, 3, 11, 5, 3, 5, 1, 5, 11, 6]
    } else if c == 93 {
        seq![5u8, 1, 11, 5, 11, 6, 1, 0, 11, 7, 11, 4, 0, 4, 11]
    } else if c == 94 {
        seq![0u8, 5, 9, 0, 6, 5, 0, 3, 6, 11, 6, 3, 8, 4, 7]
    } else if c == 95 {
        seq![6u8, 5, 9, 6, 9, 11, 4, 7, 9, 7, 11, 9]
    } else if c == 96 {
        seq![10u8, 4, 9, 6, 4, 10]
    } else if c == 97 {
        seq![4u8, 10, 6, 4, 9, 10, 0, 8, 3]
    } else if c == 98 {
        seq![10u8, 0, 1, 10, 6, 0, 6, 4, 0]
    } else if c == 99 {
        seq![8u8, 3, 1, 8, 1, 6, 8, 6, 4, 6, 1, 10]
    } else if c == 100 {
        seq![1u8, 4, 9, 1, 2, 4, 2, 6, 4]
    } else if c == 101 {
        seq![3u8, 0, 8, 1, 2, 9, 2, 4, 9, 2, 6, 4]
    } else if c == 102 {
        seq![0u8, 2, 4, 4, 2, 6]
    } else if c == 103 {
        seq![8u8, 3, 2, 8, 2, 4, 4, 2, 6]
    } else if c == 104 {
        seq![10u8, 4, 9, 10, 6, 4, 11, 2, 3]
    } else if c == 105 {
        seq![0u8, 8, 2, 2, 8, 11, 4, 9, 10, 4, 10, 6]
    } else if c == 106 {
        seq![3u8, 11, 2, 0, 1, 6, 0, 6, 4, 6, 1, 10]
    } else if c == 107 {
        seq![6u8, 4, 1, 6, 1, 10, 4, 8, 1, 2, 1, 11, 8, 11, 1]
    } else if c == 108 {
        seq![9u8, 6, 4, 9, 3, 6, 9, 1, 3, 11, 6, 3]
    } else if c == 109 {
        seq![8u8, 11, 1, 8, 1, 0, 11, 6, 1, 9, 1, 4, 6, 4, 1]
    } else if c == 110 {
        seq![3u8, 11, 6, 3, 6, 0, 0, 6, 4]
    } else if c == 111 {
        seq![6u8, 4, 8, 11, 6, 8]
    } else if c == 112 {
        seq![7u8, 10, 6, 7, 8, 10, 8, 9, 10]
    } else if c == 113 {
        seq![0u8, 7, 3, 0, 10, 7, 0, 9, 10, 6, 7, 10]
    } else if c == 114 {
        seq![10u8, 6, 7, 1, 10, 7, 1, 7, 8, 1, 8, 0]
    } else if c == 115 {
        seq![10u8, 6, 7, 10, 7, 1, 1, 7, 3]
    } else if c == 116 {
        seq![1u8, 2, 6, 1, 6, 8, 1, 8, 9, 8, 6, 7]
    } else if c == 117 {
        seq![2u8, 6, 9, 2, 9, 1, 6, 7, 9, 0, 9, 3, 7, 3, 9]
    } else if c == 118 {
        seq![7u8, 8, 0, 7, 0, 6, 6, 0, 2]
    } else if c == 119 {
        seq![7u8, 3, 2, 6, 7, 2]
    } else if c == 120 {
        seq![2u8, 3, 11, 10, 6, 8, 10, 8, 9, 8, 6, 7]
    } else if c == 121 {
        seq![2u8, 0, 7, 2, 7, 11, 0, 9, 7, 6, 7, 10, 9, 10, 7]
    } else if c == 122 {
        seq![1u8, 8, 0, 1, 7, 8, 1, 10, 7, 6, 7, 10, 2, 3, 11]
    } else if c == 123 {
        seq![11u8, 2, 1, 11, 1, 7, 10, 6, 1, 6, 7, 1]
    } else if c == 124 {
        seq![8u8, 9, 6, 8, 6, 7, 9, 1, 6, 11, 6, 3, 1, 3, 6]
    } else if c == 125 {
        seq![0u8, 9, 1, 11, 6, 7]
    } else if c == 126 {
        seq![7u8, 8, 0, 7, 0, 6, 3, 11, 0, 11, 6, 0]
    } else {
        seq![7u8, 11, 6]
    }
}

#[verifier::opaque]
pub open spec fn spec_row_c(c: int) -> Seq<u8> {
    if c == 128 {
        seq![7u8, 6, 11]
    } else if c == 129 {
        seq![3u8, 0, 8, 11, 7, 6]
    } else if c == 130 {
        seq![0u8, 1, 9, 11, 7, 6]
    } else if c == 131 {
        seq![8u8, 1, 9, 8, 3, 1, 11, 7, 6]
    } else if c == 132 {
        seq![10u8, 1, 2, 6, 11, 7]
    } else if c == 133 {
        seq![1u8, 2, 10, 3, 0, 8, 6, 11, 7]
    } else if c == 134 {
        seq![2u8, 9, 0, 2, 10, 9, 6, 11, 7]
    } else if c == 135 {
        seq![6u8, 11, 7, 2, 10, 3, 10, 8, 3, 10, 9, 8]
    } else if c == 136 {
        seq![7u8, 2, 3, 6, 2, 7]
    } else if c == 137 {
        seq![7u8, 0, 8, 7, 6, 0, 6, 2, 0]
    } else if c == 138 {
        seq![2u8, 7, 6, 2, 3, 7, 0, 1, 9]
    } else if c == 139 {
        seq![1u8, 6, 2, 1, 8, 6, 1, 9, 8, 8, 7, 6]
    } else if c == 140 {
        seq![10u8, 7, 6, 10, 1, 7, 1, 3, 7]
    } else if c == 141 {
        seq![10u8, 7, 6, 1, 7, 10, 1, 8, 7, 1, 0, 8]
    } else if c == 142 {
        seq![0u8, 3, 7, 0, 7, 10, 0, 10, 9, 6, 10, 7]
    } else if c == 143 {
        seq![7u8, 6, 10, 7, 10, 8, 8, 10, 9]
    } else if c == 144 {
        seq![6u8, 8, 4, 11, 8, 6]
    } else if c == 145 {
        seq![3u8, 6, 11, 3, 0, 6, 0, 4, 6]
    } else if c == 146 {
        seq![8u8, 6, 11, 8, 4, 6, 9, 0, 1]
    } else if c == 147 {
        seq![9u8, 4, 6, 9, 6, 3, 9, 3, 1, 11, 3, 6]
    } else if c == 148 {
        seq![6u8, 8, 4, 6, 11, 8, 2, 10, 1]
    } else if c == 149 {
        seq![1u8, 2, 10, 3, 0, 11, 0, 6, 11, 0, 4, 6]
    } else if c == 150 {
        seq![4u8, 11, 8, 4, 6, 11, 0, 2, 9, 2, 10, 9]
    } else if c == 151 {
        seq![10u8, 9, 3, 10, 3, 2, 9, 4, 3, 11, 3, 6, 4, 6, 3]
    } else if c == 152 {
        seq![8u8, 2, 3, 8, 4, 2, 4, 6, 2]
    } else if c == 153 {
        seq![0u8, 4, 2, 4, 6, 2]
    } else if c == 154 {
        seq![1u8, 9, 0, 2, 3, 4, 2, 4, 6, 4, 3, 8]
    } else if c == 155 {
        seq![1u8, 9, 4, 1, 4, 2, 2, 4, 6]
    } else if c == 156 {
        seq![8u8, 1, 3, 8, 6, 1, 8, 4, 6, 6, 10, 1]
    } else if c == 157 {
        seq![10u8, 1, 0, 10, 0, 6, 6, 0, 4]
    } else if c == 158 {
        seq![4u8, 6, 3, 4, 3, 8, 6, 10, 3, 0, 3, 9, 10, 9, 3]
    } else if c == 159 {
        seq![10u8, 9, 4, 6, 10, 4]
    } else if c == 160 {
        seq![4u8, 9, 5, 7, 6, 11]
    } else if c == 161 {
        seq![0u8, 8, 3, 4, 9, 5, 11, 7, 6]
    } else if c == 162 {
        seq![5u8, 0, 1, 5, 4, 0, 7, 6, 11]
    } else if c == 163 {
        seq![11u8, 7, 6, 8, 3, 4, 3, 5, 4, 3, 1, 5]
    } else if c == 164 {
        seq![9u8, 5, 4, 10, 1, 2, 7, 6, 11]
    } else if c == 165 {
        seq![6u8, 11, 7, 1, 2, 10, 0, 8, 3, 4, 9, 5]
    } else if c == 166 {
        seq![7u8, 6, 11, 5, 4, 10, 4, 2, 10, 4, 0, 2]
    } else if c == 167 {
        seq![3u8, 4, 8, 3, 5, 4, 3, 2, 5, 10, 5, 2, 11, 7, 6]
    } else if c == 168 {
        seq![7u8, 2, 3, 7, 6, 2, 5, 4, 9]
    } else if c == 169 {
        seq![9u8, 5, 4, 0, 8, 6, 0, 6, 2, 6, 8, 7]
    } else if c == 170 {
        seq![3u8, 6, 2, 3, 7, 6, 1, 5, 0, 5, 4, 0]
    } else if c == 171 {
        seq![6u8, 2, 8, 6, 8, 7, 2, 1, 8, 4, 8, 5, 1, 5, 8]
    } else if c == 172 {
        seq![9u8, 5, 4, 10, 1, 6, 1, 7, 6, 1, 3, 7]
    } else if c == 173 {
        seq![1u8, 6, 10, 1, 7, 6, 1, 0, 7, 8, 7, 0, 9, 5, 4]
    } else if c == 174 {
        seq![4u8, 0, 10, 4, 10, 5, 0, 3, 10, 6, 10, 7, 3, 7, 10]
    } else if c == 175 {
        seq![7u8, 6, 10, 7, 10, 8, 5, 4, 10, 4, 8, 10]
    } else if c == 176 {
        seq![6u8, 9, 5, 6, 11, 9, 11, 8, 9]
    } else if c == 177 {
        seq![3u8, 6, 11, 0, 6, 3, 0, 5, 6, 0, 9, 5]
    } else if c == 178 {
        seq![0u8, 11, 8, 0, 5, 11, 0, 1, 5, 5, 6, 11]
    } else if c == 179 {
        seq![6u8, 11, 3, 6, 3, 5, 5, 3, 1]
    } else if c == 180 {
        seq![1u8, 2, 10, 9, 5, 11, 9, 11, 8, 11, 5, 6]
    } else if c == 181 {
        seq![0u8, 11, 3, 0, 6, 11, 0, 9, 6, 5, 6, 9, 1, 2, 10]
    } else if c == 182 {
        seq![11u8, 8, 5, 11, 5, 6, 8, 0, 5, 10, 5, 2, 0, 2, 5]
    } else if c == 183 {
        seq![6u8, 11, 3, 6, 3, 5, 2, 10, 3, 10, 5, 3]
    } else if c == 184 {
        seq![5u8, 8, 9, 5, 2, 8, 5, 6, 2, 3, 8, 2]
    } else if c == 185 {
        seq![9u8, 5, 6, 9, 6, 0, 0, 6, 2]
    } else if c == 186 {
        seq![1u8, 5, 8, 1, 8, 0, 5, 6, 8, 3, 8, 2, 6, 2, 8]
    } else if c == 187 {
        seq![1u8, 5, 6, 2, 1, 6]
    } else if c == 188 {
        seq![1u8, 3, 6, 1, 6, 10, 3, 8, 6, 5, 6, 9, 8, 9, 6]
    } else if c == 189 {
        seq![10u8, 1, 0, 10, 0, 6, 9, 5, 0, 5, 6, 0]
    } else if c == 190 {
        seq![0u8, 3, 8, 5, 6, 10]
    } else {
        seq![10u8, 5, 6]
    }
}

#[verifier::opaque]
pub open spec fn spec_row_d(c: int) -> Seq<u8> {
    if c == 192 {
        seq![11u8, 5, 10, 7, 5, 11]
    } else if c == 193 {
        seq![11u8, 5, 10, 11, 7, 5, 8, 3, 0]
    } else if c == 194 {
        seq![5u8, 11, 7, 5, 10, 11, 1, 9, 0]
    } else if c == 195 {
        seq![10u8, 7, 5, 10, 11, 7, 9, 8, 1, 8, 3, 1]
    } else if c == 196 {
        seq![11u8, 1, 2, 11, 7, 1, 7, 5, 1]
    } else if c == 197 {
        seq![0u8, 8, 3, 1, 2, 7, 1, 7, 5, 7, 2, 11]
    } else if c == 198 {
        seq![9u8, 7, 5, 9, 2, 7, 9, 0, 2, 2, 11, 7]
    } else if c == 199 {
        seq![7u8, 5, 2, 7, 2, 11, 5, 9, 2, 3, 2, 8, 9, 8, 2]
    } else if c == 200 {
        seq![2u8, 5, 10, 2, 3, 5, 3, 7, 5]
    } else if c == 201 {
        seq![8u8, 2, 0, 8, 5, 2, 8, 7, 5, 10, 2, 5]
    } else if c == 202 {
        seq![9u8, 0, 1, 5, 10, 3, 5, 3, 7, 3, 10, 2]
    } else if c == 203 {
        seq![9u8, 8, 2, 9, 2, 1, 8, 7, 2, 10, 2, 5, 7, 5, 2]
    } else if c == 204 {
        seq![1u8, 3, 5, 3, 7, 5]
    } else if c == 205 {
        seq![0u8, 8, 7, 0, 7, 1, 1, 7, 5]
    } else if c == 206 {
        seq![9u8, 0, 3, 9, 3, 5, 5, 3, 7]
    } else if c == 207 {
        seq![9u8, 8, 7, 5, 9, 7]
    } else if c == 208 {
        seq![5u8, 8, 4, 5, 10, 8, 10, 11, 8]
    } else if c == 209 {
        seq![5u8, 0, 4, 5, 11, 0, 5, 10, 11, 11, 3, 0]
    } else if c == 210 {
        seq![0u8, 1, 9, 8, 4, 10, 8, 10, 11, 10, 4, 5]
    } else if c == 211 {
        seq![10u8, 11, 4, 10, 4, 5, 11, 3, 4, 9, 4, 1, 3, 1, 4]
    } else if c == 212 {
        seq![2u8, 5, 1, 2, 8, 5, 2, 11, 8, 4, 5, 8]
    } else if c == 213 {
        seq![0u8, 4, 11, 0, 11, 3, 4, 5, 11, 2, 11, 1, 5, 1, 11]
    } else if c == 214 {
        seq![0u8, 2, 5, 0, 5, 9, 2, 11, 5, 4, 5, 8, 11, 8, 5]
    } else if c == 215 {
        seq![9u8, 4, 5, 2, 11, 3]
    } else if c == 216 {
        seq![2u8, 5, 10, 3, 5, 2, 3, 4, 5, 3, 8, 4]
    } else if c == 217 {
        seq![5u8, 10, 2, 5, 2, 4, 4, 2, 0]
    } else if c == 218 {
        seq![3u8, 10, 2, 3, 5, 10, 3, 8, 5, 4, 5, 8, 0, 1, 9]
    } else if c == 219 {
        seq![5u8, 10, 2, 5, 2, 4, 1, 9, 2, 9, 4, 2]
    } else if c == 220 {
        seq![8u8, 4, 5, 8, 5, 3, 3, 5, 1]
    } else if c == 221 {
        seq![0u8, 4, 5, 1, 0, 5]
    } else if c == 222 {
        seq![8u8, 4, 5, 8, 5, 3, 9, 0, 5, 0, 3, 5]
    } else if c == 223 {
        seq![9u8, 4, 5]
    } else if c == 224 {
        seq![4u8, 11, 7, 4, 9, 11, 9, 10, 11]
    } else if c == 225 {
        seq![0u8, 8, 3, 4, 9, 7, 9, 11, 7, 9, 10, 11]
    } else if c == 226 {
        seq![1u8, 10, 11, 1, 11, 4, 1, 4, 0, 7, 4, 11]
    } else if c == 227 {
        seq![3u8, 1, 4, 3, 4, 8, 1, 10, 4, 7, 4, 11, 10, 11, 4]
    } else if c == 228 {
        seq![4u8, 11, 7, 9, 11, 4, 9, 2, 11, 9, 1, 2]
    } else if c == 229 {
        seq![9u8, 7, 4, 9, 11, 7, 9, 1, 11, 2, 11, 1, 0, 8, 3]
    } else if c == 230 {
        seq![11u8, 7, 4, 11, 4, 2, 2, 4, 0]
    } else if c == 231 {
        seq![11u8, 7, 4, 11, 4, 2, 8, 3, 4, 3, 2, 4]
    } else if c == 232 {
        seq![2u8, 9, 10, 2, 7, 9, 2, 3, 7, 7, 4, 9]
    } else if c == 233 {
        seq![9u8, 10, 7, 9, 7, 4, 10, 2, 7, 8, 7, 0, 2, 0, 7]
    } else if c == 234 {
        seq![3u8, 7, 10, 3, 10, 2, 7, 4, 10, 1, 10, 0, 4, 0, 10]
    } else if c == 235 {
        seq![1u8, 10, 2, 8, 7, 4]
    } else if c == 236 {
        seq![4u8, 9, 1, 4, 1, 7, 7, 1, 3]
    } else if c == 237 {
        seq![4u8, 9, 1, 4, 1, 7, 0, 8, 1, 8, 7, 1]
    } else if c == 238 {
        seq![4u8, 0, 3, 7, 4, 3]
    } else if c == 239 {
        seq![4u8, 8, 7]
    } else if c == 240 {
        seq![9u8, 10, 8, 10, 11, 8]
    } else if c == 241 {
        seq![3u8, 0, 9, 3, 9, 11, 11, 9, 10]
    } else if c == 242 {
        seq![0u8, 1, 10, 0, 10, 8, 8, 10, 11]
    } else if c == 243 {
        seq![3u8, 1, 10, 11, 3, 10]
    } else if c == 244 {
        seq![1u8, 2, 11, 1, 11, 9, 9, 11, 8]
    } else if c == 245 {
        seq![3u8, 0, 9, 3, 9, 11, 1, 2, 9, 2, 11, 9]
    } else if c == 246 {
        seq![0u8, 2, 11, 8, 0, 11]
    } else if c == 247 {
        seq![3u8, 2, 11]
    } else if c == 248 {
        seq![2u8, 3, 8, 2, 8, 10, 10, 8, 9]
    } else if c == 249 {
        seq![9u8, 10, 2, 0, 9, 2]
    } else if c == 250 {
        seq![2u8, 3, 8, 2, 8, 10, 0, 1, 8, 1, 10, 8]
    } else if c == 251 {
        seq![1u8, 10, 2]
    } else if c == 252 {
        seq![1u8, 3, 8, 9, 1, 8]
    } else if c == 253 {
        seq![0u8, 9, 1]
    } else if c == 254 {
        seq![0u8, 3, 8]
    } else {
        Seq::<u8>::empty()
    }
}

fn tri_row_a(c: u8) -> (r: Vec<u8>)
    requires
        0 <= c < 64,
    ensures
        r@ == spec_row_a(c as int),
{
    proof {
        reveal(spec_row_a);
    }
    match c {
        0 => row_empty(),
        1 => row3(0, 8, 3),
        2 => row3(0, 1, 9),
        3 => row6(1, 8, 3, 9, 8, 1),
        4 => row3(1, 2, 10),
        5 => row6(0, 8, 3, 1, 2, 10),
        6 => row6(9, 2, 10, 0, 2, 9),
        7 => row9(2, 8, 3, 2, 10, 8, 10, 9, 8),
        8 => row3(3, 11, 2),
        9 => row6(0, 11, 2, 8, 11, 0),
        10 => row6(1, 9, 0, 2, 3, 11),
        11 => row9(1, 11, 2, 1, 9, 11, 9, 8, 11),
        12 => row6(3, 10, 1, 11, 10, 3),
        13 => row9(0, 10, 1, 0, 8, 10, 8, 11, 10),
        14 => row9(3, 9, 0, 3, 11, 9, 11, 10, 9),
        15 => row6(9, 8, 10, 10, 8, 11),
        16 => row3(4, 7, 8),
        17 => row6(4, 3, 0, 7, 3, 4),
        18 => row6(0, 1, 9, 8, 4, 7),
        19 => row9(4, 1, 9, 4, 7, 1, 7, 3, 1),
        20 => row6(1, 2, 10, 8, 4, 7),
        21 => row9(3, 4, 7, 3, 0, 4, 1, 2, 10),
        22 => row9(9, 2, 10, 9, 0, 2, 8, 4, 7),
        23 => row12(2, 10, 9, 2, 9, 7, 2, 7, 3, 7, 9, 4),
        24 => row6(8, 4, 7, 3, 11, 2),
        25 => row9(11, 4, 7, 11, 2, 4, 2, 0, 4),
        26 => row9(9, 0, 1, 8, 4, 7, 2, 3, 11),
        27 => row12(4, 7, 11, 9, 4, 11, 9, 11, 2, 9, 2, 1),
        28 => row9(3, 10, 1, 3, 11, 10, 7, 8, 4),
        29 => row12(1, 11, 10, 1, 4, 11, 1, 0, 4, 7, 11, 4),
        30 => row12(4, 7, 8, 9, 0, 11, 9, 11, 10, 11, 0, 3),
        31 => row9(4, 7, 11, 4, 11, 9, 9, 11, 10),
        32 => row3(9, 5, 4),
        33 => row6(9, 5, 4, 0, 8, 3),
        34 => row6(0, 5, 4, 1, 5, 0),
        35 => row9(8, 5, 4, 8, 3, 5, 3, 1, 5),
        36 => row6(1, 2, 10, 9, 5, 4),
        37 => row9(3, 0, 8, 1, 2, 10, 4, 9, 5),
        38 => row9(5, 2, 10, 5, 4, 2, 4, 0, 2),
        39 => row12(2, 10, 5, 3, 2, 5, 3, 5, 4, 3, 4, 8),
        40 => row6(9, 5, 4, 2, 3, 11),
        41 => row9(0, 11, 2, 0, 8, 11, 4, 9, 5),
        42 => row9(0, 5, 4, 0, 1, 5, 2, 3, 11),
        43 => row12(2, 1, 5, 2, 5, 8, 2, 8, 11, 4, 8, 5),
        44 => row9(10, 3, 11, 10, 1, 3, 9, 5, 4),
        45 => row12(4, 9, 5, 0, 8, 1, 8, 10, 1, 8, 11, 10),
        46 => row12(5, 4, 0, 5, 0, 11, 5, 11, 10, 11, 0, 3),
        47 => row9(5, 4, 8, 5, 8, 10, 10, 8, 11),
        48 => row6(9, 7, 8, 5, 7, 9),
        49 => row9(9, 3, 0, 9, 5, 3, 5, 7, 3),
        50 => row9(0, 7, 8, 0, 1, 7, 1, 5, 7),
        51 => row6(1, 5, 3, 3, 5, 7),
        52 => row9(9, 7, 8, 9, 5, 7, 10, 1, 2),
        53 => row12(10, 1, 2, 9, 5, 0, 5, 3, 0, 5, 7, 3),
        54 => row12(8, 0, 2, 8, 2, 5, 8, 5, 7, 10, 5, 2),
        55 => row9(2, 10, 5, 2, 5, 3, 3, 5, 7),
        56 => row9(7, 9, 5, 7, 8, 9, 3, 11, 2),
        57 => row12(9, 5, 7, 9, 7, 2, 9, 2, 0, 2, 7, 11),
        58 => row12(2, 3, 11, 0, 1, 8, 1, 7, 8, 1, 5, 7),
        59 => row9(11, 2, 1, 11, 1, 7, 7, 1, 5),
        60 => row12(9, 5, 8, 8, 5, 7, 10, 1, 3, 10, 3, 11),
        61 => row15(5, 7, 0, 5, 0, 9, 7, 11, 0, 1, 0, 10, 11, 10, 0),
        62 => row15(11, 10, 0, 11, 0, 3, 10, 5, 0, 8, 0, 7, 5, 7, 0),
        _ => row6(11, 10, 5, 7, 11, 5),
    }
}

fn tri_row_b(c: u8) -> (r: Vec<u8>)
    requires
        64 <= c < 128,
    ensures
        r@ == spec_row_b(c as int),
{
    proof {
        reveal(spec_row_b);
    }
    match c {
        64 => row3(10, 6, 5),
        65 => row6(0, 8, 3, 5, 10, 6),
        66 => row6(9, 0, 1, 5, 10, 6),
        67 => row9(1, 8, 3, 1, 9, 8, 5, 10, 6),
        68 => row6(1, 6, 5, 2, 6, 1),
        69 => row9(1, 6, 5, 1, 2, 6, 3, 0, 8),
        70 => row9(9, 6, 5, 9, 0, 6, 0, 2, 6),
        71 => row12(5, 9, 8, 5, 8, 2, 5, 2, 6, 3, 2, 8),
        72 => row6(2, 3, 11, 10, 6, 5),
        73 => row9(11, 0, 8, 11, 2, 0, 10, 6, 5),
        74 => row9(0, 1, 9, 2, 3, 11, 5, 10, 6),
        75 => row12(5, 10, 6, 1, 9, 2, 9, 11, 2, 9, 8, 11),
        76 => row9(6, 3, 11, 6, 5, 3, 5, 1, 3),
        77 => row12(0, 8, 11, 0, 11, 5, 0, 5, 1, 5, 11, 6),
        78 => row12(3, 11, 6, 0, 3, 6, 0, 6, 5, 0, 5, 9),
        79 => row9(6, 5, 9, 6, 9, 11, 11, 9, 8),
        80 => row6(5, 10, 6, 4, 7, 8),
        81 => row9(4, 3, 0, 4, 7, 3, 6, 5, 10),
        82 => row9(1, 9, 0, 5, 10, 6, 8, 4, 7),
        83 => row12(10, 6, 5, 1, 9, 7, 1, 7, 3, 7, 9, 4),
        84 => row9(6, 1, 2, 6, 5, 1, 4, 7, 8),
        85 => row12(1, 2, 5, 5, 2, 6, 3, 0, 4, 3, 4, 7),
        86 => row12(8, 4, 7, 9, 0, 5, 0, 6, 5, 0, 2, 6),
        87 => row15(7, 3, 9, 7, 9, 4, 3, 2, 9, 5, 9, 6, 2, 6, 9),
        88 => row9(3, 11, 2, 7, 8, 4, 10, 6, 5),
        89 => row12(5, 10, 6, 4, 7, 2, 4, 2, 0, 2, 7, 11),
        90 => row12(0, 1, 9, 4, 7, 8, 2, 3, 11, 5, 10, 6),
        91 => row15(9, 2, 1, 9, 11, 2, 9, 4, 11, 7, 11, 4, 5, 10, 6),
        92 => row12(8, 4, 7, 3, 11, 5, 3, 5, 1, 5, 11, 6),
        93 => row15(5, 1, 11, 5, 11, 6, 1, 0, 11, 7, 11, 4, 0, 4, 11),
        94 => row15(0, 5, 9, 0, 6, 5, 0, 3, 6, 11, 6, 3, 8, 4, 7),
        95 => row12(6, 5, 9, 6, 9, 11, 4, 7, 9, 7, 11, 9),
        96 => row6(10, 4, 9, 6, 4, 10),
        97 => row9(4, 10, 6, 4, 9, 10, 0, 8, 3),
        98 => row9(10, 0, 1, 10, 6, 0, 6, 4, 0),
        99 => row12(8, 3, 1, 8, 1, 6, 8, 6, 4, 6, 1, 10),
        100 => row9(1, 4, 9, 1, 2, 4, 2, 6, 4),
        101 => row12(3, 0, 8, 1, 2, 9, 2, 4, 9, 2, 6, 4),
        102 => row6(0, 2, 4, 4, 2, 6),
        103 => row9(8, 3, 2, 8, 2, 4, 4, 2, 6),
        104 => row9(10, 4, 9, 10, 6, 4, 11, 2, 3),
        105 => row12(0, 8, 2, 2, 8, 11, 4, 9, 10, 4, 10, 6),
        106 => row12(3, 11, 2, 0, 1, 6, 0, 6, 4, 6, 1, 10),
        107 => row15(6, 4, 1, 6, 1, 10, 4, 8, 1, 2, 1, 11, 8, 11, 1),
        108 => row12(9, 6, 4, 9, 3, 6, 9, 1, 3, 11, 6, 3),
        109 => row15(8, 11, 1, 8, 1, 0, 11, 6, 1, 9, 1, 4, 6, 4, 1),
        110 => row9(3, 11, 6, 3, 6, 0, 0, 6, 4),
        111 => row6(6, 4, 8, 11, 6, 8),
        112 => row9(7, 10, 6, 7, 8, 10, 8, 9, 10),
        113 => row12(0, 7, 3, 0, 10, 7, 0, 9, 10, 6, 7, 10),
        114 => row12(10, 6, 7, 1, 10, 7, 1, 7, 8, 1, 8, 0),
        115 => row9(10, 6, 7, 10, 7, 1, 1, 7, 3),
        116 => row12(1, 2, 6, 1, 6, 8, 1, 8, 9, 8, 6, 7),
        117 => row15(2, 6, 9, 2, 9, 1, 6, 7, 9, 0, 9, 3, 7, 3, 9),
        118 => row9(7, 8, 0, 7, 0, 6, 6, 0, 2),
        119 => row6(7, 3, 2, 6, 7, 2),
        120 => row12(2, 3, 11, 10, 6, 8, 10, 8, 9, 8, 6, 7),
        121 => row15(2, 0, 7, 2, 7, 11, 0, 9, 7, 6, 7, 10, 9, 10, 7),
        122 => row15(1, 8, 0, 1, 7, 8, 1, 10, 7, 6, 7, 10, 2, 3, 11),
        123 => row12(11, 2, 1, 11, 1, 7, 10, 6, 1, 6, 7, 1),
        124 => row15(8, 9, 6, 8, 6, 7, 9, 1, 6, 11, 6, 3, 1, 3, 6),
        125 => row6(0, 9, 1, 11, 6, 7),
        126 => row12(7, 8, 0, 7, 0, 6, 3, 11, 0, 11, 6, 0),
        _ => row3(7, 11, 6),
    }
}

fn tri_row_c(c: u8) -> (r: Vec<u8>)
    requires
        128 <= c < 192,
    ensures
        r@ == spec_row_c(c as int),
{
    proof {
        reveal(spec_row_c);
    }
    match c {
        128 => row3(7, 6, 11),
        129 => row6(3, 0, 8, 11, 7, 6),
        130 => row6(0, 1, 9, 11, 7, 6),
        131 => row9(8, 1, 9, 8, 3, 1, 11, 7, 6),
        132 => row6(10, 1, 2, 6, 11, 7),
        133 => row9(1, 2, 10, 3, 0, 8, 6, 11, 7),
        134 => row9(2, 9, 0, 2, 10, 9, 6, 11, 7),
        135 => row12(6, 11, 7, 2, 10, 3, 10, 8, 3, 10, 9, 8),
        136 => row6(7, 2, 3, 6, 2, 7),
        137 => row9(7, 0, 8, 7, 6, 0, 6, 2, 0),
        138 => row9(2, 7, 6, 2, 3, 7, 0, 1, 9),
        139 => row12(1, 6, 2, 1, 8, 6, 1, 9, 8, 8, 7, 6),
        140 => row9(10, 7, 6, 10, 1, 7, 1, 3, 7),
        141 => row12(10, 7, 6, 1, 7, 10, 1, 8, 7, 1, 0, 8),
        142 => row12(0, 3, 7, 0, 7, 10, 0, 10, 9, 6, 10, 7),
        143 => row9(7, 6, 10, 7, 10, 8, 8, 10, 9),
        144 => row6(6, 8, 4, 11, 8, 6),
        145 => row9(3, 6, 11, 3, 0, 6, 0, 4, 6),
        146 => row9(8, 6, 11, 8, 4, 6, 9, 0, 1),
        147 => row12(9, 4, 6, 9, 6, 3, 9, 3, 1, 11, 3, 6),
        148 => row9(6, 8, 4, 6, 11, 8, 2, 10, 1),
        149 => row12(1, 2, 10, 3, 0, 11, 0, 6, 11, 0, 4, 6),
        150 => row12(4, 11, 8, 4, 6, 11, 0, 2, 9, 2, 10, 9),
        151 => row15(10, 9, 3, 10, 3, 2, 9, 4, 3, 11, 3, 6, 4, 6, 3),
        152 => row9(8, 2, 3, 8, 4, 2, 4, 6, 2),
        153 => row6(0, 4, 2, 4, 6, 2),
        154 => row12(1, 9, 0, 2, 3, 4, 2, 4, 6, 4, 3, 8),
        155 => row9(1, 9, 4, 1, 4, 2, 2, 4, 6),
        156 => row12(8, 1, 3, 8, 6, 1, 8, 4, 6, 6, 10, 1),
        157 => row9(10, 1, 0, 10, 0, 6, 6, 0, 4),
        158 => row15(4, 6, 3, 4, 3, 8, 6, 10, 3, 0, 3, 9, 10, 9, 3),
        159 => row6(10, 9, 4, 6, 10, 4),
        160 => row6(4, 9, 5, 7, 6, 11),
        161 => row9(0, 8, 3, 4, 9, 5, 11, 7, 6),
        162 => row9(5, 0, 1, 5, 4, 0, 7, 6, 11),
        163 => row12(11, 7, 6, 8, 3, 4, 3, 5, 4, 3, 1, 5),
        164 => row9(9, 5, 4, 10, 1, 2, 7, 6, 11),
        165 => row12(6, 11, 7, 1, 2, 10, 0, 8, 3, 4, 9, 5),
        166 => row12(7, 6, 11, 5, 4, 10, 4, 2, 10, 4, 0, 2),
        167 => row15(3, 4, 8, 3, 5, 4, 3, 2, 5, 10, 5, 2, 11, 7, 6),
        168 => row9(7, 2, 3, 7, 6, 2, 5, 4, 9),
        169 => row12(9, 5, 4, 0, 8, 6, 0, 6, 2, 6, 8, 7),
        170 => row12(3, 6, 2, 3, 7, 6, 1, 5, 0, 5, 4, 0),
        171 => row15(6, 2, 8, 6, 8, 7, 2, 1, 8, 4, 8, 5, 1, 5, 8),
        172 => row12(9, 5, 4, 10, 1, 6, 1, 7, 6, 1, 3, 7),
        173 => row15(1, 6, 10, 1, 7, 6, 1, 0, 7, 8, 7, 0, 9, 5, 4),
        174 => row15(4, 0, 10, 4, 10, 5, 0, 3, 10, 6, 10, 7, 3, 7, 10),
        175 => row12(7, 6, 10, 7, 10, 8, 5, 4, 10, 4, 8, 10),
        176 => row9(6, 9, 5, 6, 11, 9, 11, 8, 9),
        177 => row12(3, 6, 11, 0, 6, 3, 0, 5, 6, 0, 9, 5),
        178 => row12(0, 11, 8, 0, 5, 11, 0, 1, 5, 5, 6, 11),
        179 => row9(6, 11, 3, 6, 3, 5, 5, 3, 1),
        180 => row12(1, 2, 10, 9, 5, 11, 9, 11, 8, 11, 5, 6),
        181 => row15(0, 11, 3, 0, 6, 11, 0, 9, 6, 5, 6, 9, 1, 2, 10),
        182 => row15(11, 8, 5, 11, 5, 6, 8, 0, 5, 10, 5, 2, 0, 2, 5),
        183 => row12(6, 11, 3, 6, 3, 5, 2, 10, 3, 10, 5, 3),
        184 => row12(5, 8, 9, 5, 2, 8, 5, 6, 2, 3, 8, 2),
        185 => row9(9, 5, 6, 9, 6, 0, 0, 6, 2),
        186 => row15(1, 5, 8, 1, 8, 0, 5, 6, 8, 3, 8, 2, 6, 2, 8),
        187 => row6(1, 5, 6, 2, 1, 6),
        188 => row15(1, 3, 6, 1, 6, 10, 3, 8, 6, 5, 6, 9, 8, 9, 6),
        189 => row12(10, 1, 0, 10, 0, 6, 9, 5, 0, 5, 6, 0),
        190 => row6(0, 3, 8, 5, 6, 10),
        _ => row3(10, 5, 6),
    }
}

fn tri_row_d(c: u8) -> (r: Vec<u8>)
    requires
        192 <= c < 256,
    ensures
        r@ == spec_row_d(c as int),
{
    proof {
        reveal(spec_row_d);
    }
    match c {
        192 => row6(11, 5, 10, 7, 5, 11),
        193 => row9(11, 5, 10, 11, 7, 5, 8, 3, 0),
        194 => row9(5, 11, 7, 5, 10, 11, 1, 9, 0),
        195 => row12(10, 7, 5, 10, 11, 7, 9, 8, 1, 8, 3, 1),
        196 => row9(11, 1, 2, 11, 7, 1, 7, 5, 1),
        197 => row12(0, 8, 3, 1, 2, 7, 1, 7, 5, 7, 2, 11),
        198 => row12(9, 7, 5, 9, 2, 7, 9, 0, 2, 2, 11, 7),
        199 => row15(7, 5, 2, 7, 2, 11, 5, 9, 2, 3, 2, 8, 9, 8, 2),
        200 => row9(2, 5, 10, 2, 3, 5, 3, 7, 5),
        201 => row12(8, 2, 0, 8, 5, 2, 8, 7, 5, 10, 2, 5),
        202 => row12(9, 0, 1, 5, 10, 3, 5, 3, 7, 3, 10, 2),
        203 => row15(9, 8, 2, 9, 2, 1, 8, 7, 2, 10, 2, 5, 7, 5, 2),
        204 => row6(1, 3, 5, 3, 7, 5),
        205 => row9(0, 8, 7, 0, 7, 1, 1, 7, 5),
        206 => row9(9, 0, 3, 9, 3, 5, 5, 3, 7),
        207 => row6(9, 8, 7, 5, 9, 7),
        208 => row9(5, 8, 4, 5, 10, 8, 10, 11, 8),
        209 => row12(5, 0, 4, 5, 11, 0, 5, 10, 11, 11, 3, 0),
        210 => row12(0, 1, 9, 8, 4, 10, 8, 10, 11, 10, 4, 5),
        211 => row15(10, 11, 4, 10, 4, 5, 11, 3, 4, 9, 4, 1, 3, 1, 4),
        212 => row12(2, 5, 1, 2, 8, 5, 2, 11, 8, 4, 5, 8),
        213 => row15(0, 4, 11, 0, 11, 3, 4, 5, 11, 2, 11, 1, 5, 1, 11),
        214 => row15(0, 2, 5, 0, 5, 9, 2, 11, 5, 4, 5, 8, 11, 8, 5),
        215 => row6(9, 4, 5, 2, 11, 3),
        216 => row12(2, 5, 10, 3, 5, 2, 3, 4, 5, 3, 8, 4),
        217 => row9(5, 10, 2, 5, 2, 4, 4, 2, 0),
        218 => row15(3, 10, 2, 3, 5, 10, 3, 8, 5, 4, 5, 8, 0, 1, 9),
        219 => row12(5, 10, 2, 5, 2, 4, 1, 9, 2, 9, 4, 2),
        220 => row9(8, 4, 5, 8, 5, 3, 3, 5, 1),
        221 => row6(0, 4, 5, 1, 0, 5),
        222 => row12(8, 4, 5, 8, 5, 3, 9, 0, 5, 0, 3, 5),
        223 => row3(9, 4, 5),
        224 => row9(4, 11, 7, 4, 9, 11, 9, 10, 11),
        225 => row12(0, 8, 3, 4, 9, 7, 9, 11, 7, 9, 10, 11),
        226 => row12(1, 10, 11, 1, 11, 4, 1, 4, 0, 7, 4, 11),
        227 => row15(3, 1, 4, 3, 4, 8, 1, 10, 4, 7, 4, 11, 10, 11, 4),
        228 => row12(4, 11, 7, 9, 11, 4, 9, 2, 11, 9, 1, 2),
        229 => row15(9, 7, 4, 9, 11, 7, 9, 1, 11, 2, 11, 1, 0, 8, 3),
        230 => row9(11, 7, 4, 11, 4, 2, 2, 4, 0),
        231 => row12(11, 7, 4, 11, 4, 2, 8, 3, 4, 3, 2, 4),
        232 => row12(2, 9, 10, 2, 7, 9, 2, 3, 7, 7, 4, 9),
        233 => row15(9, 10, 7, 9, 7, 4, 10, 2, 7, 8, 7, 0, 2, 0, 7),
        234 => row15(3, 7, 10, 3, 10, 2, 7, 4, 10, 1, 10, 0, 4, 0, 10),
        235 => row6(1, 10, 2, 8, 7, 4),
        236 => row9(4, 9, 1, 4, 1, 7, 7, 1, 3),
        237 => row12(4, 9, 1, 4, 1, 7, 0, 8, 1, 8, 7, 1),
        238 => row6(4, 0, 3, 7, 4, 3),
        239 => row3(4, 8, 7),
        240 => row6(9, 10, 8, 10, 11, 8),
        241 => row9(3, 0, 9, 3, 9, 11, 11, 9, 10),
        242 => row9(0, 1, 10, 0, 10, 8, 8, 10, 11),
        243 => row6(3, 1, 10, 11, 3, 10),
        244 => row9(1, 2, 11, 1, 11, 9, 9, 11, 8),
        245 => row12(3, 0, 9, 3, 9, 11, 1, 2, 9, 2, 11, 9),
        246 => row6(0, 2, 11, 8, 0, 11),
        247 => row3(3, 2, 11),
        248 => row9(2, 3, 8, 2, 8, 10, 10, 8, 9),
        249 => row6(9, 10, 2, 0, 9, 2),
        250 => row12(2, 3, 8, 2, 8, 10, 0, 1, 8, 1, 10, 8),
        251 => row3(1, 10, 2),
        252 => row6(1, 3, 8, 9, 1, 8),
        253 => row3(0, 9, 1),
        254 => row3(0, 3, 8),
        _ => row_empty(),
    }
}
/// The triangulation of configuration `c`: edge indices, three per
/// triangle, in winding order.
pub open spec fn spec_row(c: int) -> Seq<u8> {
    if c < 64 {
        spec_row_a(c)
    } else if c < 128 {
        spec_row_b(c)
    } else if c < 192 {
        spec_row_c(c)
    } else {
        spec_row_d(c)
    }
}

fn row_empty() -> (r: Vec<u8>)
    ensures
        r@ == Seq::<u8>::empty(),
{
    let r: Vec<u8> = Vec::new();
    assert(r@ =~= Seq::<u8>::empty());
    r
}

fn row3(e0: u8, e1: u8, e2: u8) -> (r: Vec<u8>)
    ensures
        r@ == seq![e0, e1, e2],
{
    let mut r: Vec<u8> = Vec::new();
    r.push(e0);
    r.push(e1);
    r.push(e2);
    assert(r@ =~= seq![e0, e1, e2]);
    r
}

fn row6(e0: u8, e1: u8, e2: u8, e3: u8, e4: u8, e5: u8) -> (r: Vec<u8>)
    ensures
        r@ == seq![e0, e1, e2, e3, e4, e5],
{
    let mut r = row3(e0, e1, e2);
    r.push(e3);
    r.push(e4);
    r.push(e5);
    assert(r@ =~= seq![e0, e1, e2, e3, e4, e5]);
    r
}

fn row9(e0: u8, e1: u8, e2: u8, e3: u8, e4: u8, e5: u8, e6: u8, e7: u8, e8: u8) -> (r: Vec<u8>)
    ensures
        r@ == seq![e0, e1, e2, e3, e4, e5, e6, e7, e8],
{
    let mut r = row6(e0, e1, e2, e3, e4, e5);
    r.push(e6);
    r.push(e7);
    r.push(e8);
    assert(r@ =~= seq![e0, e1, e2, e3, e4, e5, e6, e7, e8]);
    r
}

fn row12(
    e0: u8,
    e1: u8,
    e2: u8,
    e3: u8,
    e4: u8,
    e5: u8,
    e6: u8,
    e7: u8,
    e8: u8,
    e9: u8,
    e10: u8,
    e11: u8,
) -> (r: Vec<u8>)
    ensures
        r@ == seq![e0, e1, e2, e3, e4, e5, e6, e7, e8, e9, e10, e11],
{
    let mut r = row9(e0, e1, e2, e3, e4, e5, e6, e7, e8);
    r.push(e9);
    r.push(e10);
    r.push(e11);
    assert(r@ =~= seq![e0, e1, e2, e3, e4, e5, e6, e7, e8, e9, e10, e11]);
    r
}

fn row15(
    e0: u8,
    e1: u8,
    e2: u8,
    e3: u8,
    e4: u8,
    e5: u8,
    e6: u8,
    e7: u8,
    e8: u8,
    e9: u8,
    e10: u8,
    e11: u8,
    e12: u8,
    e13: u8,
    e14: u8,
) -> (r: Vec<u8>)
    ensures
        r@ == seq![e0, e1, e2, e3, e4, e5, e6, e7, e8, e9, e10, e11, e12, e13, e14],
{
    let mut r = row12(e0, e1, e2, e3, e4, e5, e6, e7, e8, e9, e10, e11);
    r.push(e12);
    r.push(e13);
    r.push(e14);
    assert(r@ =~= seq![e0, e1, e2, e3, e4, e5, e6, e7, e8, e9, e10, e11, e12, e13, e14]);
    r
}

/// The first `n` entries of `r` are all valid edge indices (below 12).
pub open spec fn edges_below(r: Seq<u8>, n: int) -> bool
    decreases n,
{
    n <= 0 || (r[n - 1] < 12 && edges_below(r, n - 1))
}

/// A row is well-shaped: a whole number of triangles, at most five of
/// them, every entry a cube-edge index.
pub open spec fn row_shape_ok(r: Seq<u8>) -> bool {
    r.len() % 3 == 0 && r.len() <= 15 && edges_below(r, r.len() as int)
}

proof fn lemma_edges_below_index(r: Seq<u8>, n: int, i: int)
    requires
        edges_below(r, n),
        0 <= i < n,
    ensures
        r[i] < 12,
    decreases n,
{
    if i < n - 1 {
        lemma_edges_below_index(r, n - 1, i);
    }
}

#[verifier::rlimit(100)]
proof fn lemma_shape_a(c: int)
    requires
        0 <= c < 64,
    ensures
        row_shape_ok(spec_row(c)),
{
    reveal_with_fuel(edges_below, 16);
    reveal(spec_row_a);
    assert(row_shape_ok(spec_row_a(c)));
}

#[verifier::rlimit(100)]
proof fn lemma_shape_b(c: int)
    requires
        64 <= c < 128,
    ensures
        row_shape_ok(spec_row(c)),
{
    reveal_with_fuel(edges_below, 16);
    reveal(spec_row_b);
    assert(row_shape_ok(spec_row_b(c)));
}

#[verifier::rlimit(100)]
proof fn lemma_shape_c(c: int)
    requires
        128 <= c < 192,
    ensures
        row_shape_ok(spec_row(c)),
{
    reveal_with_fuel(edges_below, 16);
    reveal(spec_row_c);
    assert(row_shape_ok(spec_row_c(c)));
}

#[verifier::rlimit(100)]
proof fn lemma_shape_d(c: int)
    requires
        192 <= c < 256,
    ensures
        row_shape_ok(spec_row(c)),
{
    reveal_with_fuel(edges_below, 16);
    reveal(spec_row_d);
    assert(row_shape_ok(spec_row_d(c)));
}

/// Table completeness: every configuration's row is a whole number of
/// triangles, at most five, over valid edge indices; the all-outside and
/// all-inside configurations list nothing.
pub proof fn lemma_row_valid(c: int)
    requires
        0 <= c < 256,
    ensures
        spec_row(c).len() % 3 == 0,
        spec_row(c).len() <= 15,
        forall|i: int| 0 <= i < spec_row(c).len() ==> spec_row(c)[i] < 12,
        c == 0 ==> spec_row(c).len() == 0,
        c == 255 ==> spec_row(c).len() == 0,
{
    if c < 64 {
        lemma_shape_a(c);
    } else if c < 128 {
        lemma_shape_b(c);
    } else if c < 192 {
        lemma_shape_c(c);
    } else {
        lemma_shape_d(c);
    }
    assert forall|i: int| 0 <= i < spec_row(c).len() implies spec_row(c)[i] < 12 by {
        lemma_edges_below_index(spec_row(c), spec_row(c).len() as int, i);
    }
    if c == 0 {
        reveal(spec_row_a);
        assert(spec_row(0).len() == 0);
    }
    if c == 255 {
        reveal(spec_row_d);
        assert(spec_row(255).len() == 0);
    }
}

/// Whether edge `e` occurs among the first `n` entries of `r`.
pub open spec fn row_has_edge(r: Seq<u8>, e: u8, n: int) -> bool
    decreases n,
{
    n > 0 && (r[n - 1] == e || row_has_edge(r, e, n - 1))
}

proof fn lemma_row_has_edge_contains(r: Seq<u8>, e: u8, n: int)
    requires
        0 <= n <= r.len(),
    ensures
        row_has_edge(r, e, n) <==> exists|i: int| 0 <= i < n && r[i] == e,
    decreases n,
{
    if n > 0 {
        lemma_row_has_edge_contains(r, e, n - 1);
        if r[n - 1] == e {
            assert(0 <= n - 1 < n && r[n - 1] == e);
        }
    }
}

/// The complement configurations `c` and `255 - c` list the same edges
/// (the first `k` edge indices agree; used with `k == 12`).
pub open spec fn rows_match_below(c: int, k: int) -> bool
    decreases k,
{
    k <= 0 || ((row_has_edge(spec_row(c), (k - 1) as u8, spec_row(c).len() as int)
        <==> row_has_edge(spec_row(255 - c), (k - 1) as u8, spec_row(255 - c).len() as int))
        && rows_match_below(c, k - 1))
}

proof fn lemma_rows_match_below_at(c: int, k: int, e: int)
    requires
        rows_match_below(c, k),
        0 <= e < k,
    ensures
        row_has_edge(spec_row(c), e as u8, spec_row(c).len() as int) <==> row_has_edge(
            spec_row(255 - c),
            e as u8,
            spec_row(255 - c).len() as int,
        ),
    decreases k,
{
    if e < k - 1 {
        lemma_rows_match_below_at(c, k - 1, e);
    }
}

#[verifier::rlimit(100)]
proof fn lemma_match_p(c: int)
    requires
        0 <= c < 32,
    ensures
        rows_match_below(c, 12),
{
    reveal_with_fuel(rows_match_below, 13);
    reveal_with_fuel(row_has_edge, 16);
    reveal(spec_row_a);
    reveal(spec_row_b);
    reveal(spec_row_c);
    reveal(spec_row_d);
    if c == 0 {
        assert(rows_match_below(0, 12));
    } else if c == 1 {
        assert(rows_match_below(1, 12));
    } else if c == 2 {
        assert(rows_match_below(2, 12));
    } else if c == 3 {
        assert(rows_match_below(3, 12));
    } else if c == 4 {
        assert(rows_match_below(4, 12));
    } else if c == 5 {
        assert(rows_match_below(5, 12));
    } else if c == 6 {
        assert(rows_match_below(6, 12));
    } else if c == 7 {
        assert(rows_match_below(7, 12));
    } else if c == 8 {
        assert(rows_match_below(8, 12));
    } else if c == 9 {
        assert(rows_match_below(9, 12));
    } else if c == 10 {
        assert(rows_match_below(10, 12));
    } else if c == 11 {
        assert(rows_match_below(11, 12));
    } else if c == 12 {
        assert(rows_match_below(12, 12));
    } else if c == 13 {
        assert(rows_match_below(13, 12));
    } else if c == 14 {
        assert(rows_match_below(14, 12));
    } else if c == 15 {
        assert(rows_match_below(15, 12));
    } else if c == 16 {
        assert(rows_match_below(16, 12));
    } else if c == 17 {
        assert(rows_match_below(17, 12));
    } else if c == 18 {
        assert(rows_match_below(18, 12));
    } else if c == 19 {
        assert(rows_match_below(19, 12));
    } else if c == 20 {
        assert(rows_match_below(20, 12));
    } else if c == 21 {
        assert(rows_match_below(21, 12));
    } else if c == 22 {
        assert(rows_match_below(22, 12));
    } else if c == 23 {
        assert(rows_match_below(23, 12));
    } else if c == 24 {
        assert(rows_match_below(24, 12));
    } else if c == 25 {
        assert(rows_match_below(25, 12));
    } else if c == 26 {
        assert(rows_match_below(26, 12));
    } else if c == 27 {
        assert(rows_match_below(27, 12));
    } else if c == 28 {
        assert(rows_match_below(28, 12));
    } else if c == 29 {
        assert(rows_match_below(29, 12));
    } else if c == 30 {
        assert(rows_match_below(30, 12));
    } else {
        assert(rows_match_below(31, 12));
    }
}

#[verifier::rlimit(100)]
proof fn lemma_match_q(c: int)
    requires
        32 <= c < 64,
    ensures
        rows_match_below(c, 12),
{
    reveal_with_fuel(rows_match_below, 13);
    reveal_with_fuel(row_has_edge, 16);
    reveal(spec_row_a);
    reveal(spec_row_b);
    reveal(spec_row_c);
    reveal(spec_row_d);
    if c == 32 {
        assert(rows_match_below(32, 12));
    } else if c == 33 {
        assert(rows_match_below(33, 12));
    } else if c == 34 {
        assert(rows_match_below(34, 12));
    } else if c == 35 {
        assert(rows_match_below(35, 12));
    } else if c == 36 {
        assert(rows_match_below(36, 12));
    } else if c == 37 {
        assert(rows_match_below(37, 12));
    } else if c == 38 {
        assert(rows_match_below(38, 12));
    } else if c == 39 {
        assert(rows_match_below(39, 12));
    } else if c == 40 {
        assert(rows_match_below(40, 12));
    } else if c == 41 {
        assert(rows_match_below(41, 12));
    } else if c == 42 {
        assert(rows_match_below(42, 12));
    } else if c == 43 {
        assert(rows_match_below(43, 12));
    } else if c == 44 {
        assert(rows_match_below(44, 12));
    } else if c == 45 {
        assert(rows_match_below(45, 12));
    } else if c == 46 {
        assert(rows_match_below(46, 12));
    } else if c == 47 {
        assert(rows_match_below(47, 12));
    } else if c == 48 {
        assert(rows_match_below(48, 12));
    } else if c == 49 {
        assert(rows_match_below(49, 12));
    } else if c == 50 {
        assert(rows_match_below(50, 12));
    } else if c == 51 {
        assert(rows_match_below(51, 12));
    } else if c == 52 {
        assert(rows_match_below(52, 12));
    } else if c == 53 {
        assert(rows_match_below(53, 12));
    } else if c == 54 {
        assert(rows_match_below(54, 12));
    } else if c == 55 {
        assert(rows_match_below(55, 12));
    } else if c == 56 {
        assert(rows_match_below(56, 12));
    } else if c == 57 {
        assert(rows_match_below(57, 12));
    } else if c == 58 {
        assert(rows_match_below(58, 12));
    } else if c == 59 {
        assert(rows_match_below(59, 12));
    } else if c == 60 {
        assert(rows_match_below(60, 12));
    } else if c == 61 {
        assert(rows_match_below(61, 12));
    } else if c == 62 {
        assert(rows_match_below(62, 12));
    } else {
        assert(rows_match_below(63, 12));
    }
}

#[verifier::rlimit(100)]
proof fn lemma_match_r(c: int)
    requires
        64 <= c < 96,
    ensures
        rows_match_below(c, 12),
{
    reveal_with_fuel(rows_match_below, 13);
    reveal_with_fuel(row_has_edge, 16);
    reveal(spec_row_a);
    reveal(spec_row_b);
    reveal(spec_row_c);
    reveal(spec_row_d);
    if c == 64 {
        assert(rows_match_below(64, 12));
    } else if c == 65 {
        assert(rows_match_below(65, 12));
    } else if c == 66 {
        assert(rows_match_below(66, 12));
    } else if c == 67 {
        assert(rows_match_below(67, 12));
    } else if c == 68 {
        assert(rows_match_below(68, 12));
    } else if c == 69 {
        assert(rows_match_below(69, 12));
    } else if c == 70 {
        assert(rows_match_below(70, 12));
    } else if c == 71 {
        assert(rows_match_below(71, 12));
    } else if c == 72 {
        assert(rows_match_below(72, 12));
    } else if c == 73 {
        assert(rows_match_below(73, 12));
    } else if c == 74 {
        assert(rows_match_below(74, 12));
    } else if c == 75 {
        assert(rows_match_below(75, 12));
    } else if c == 76 {
        assert(rows_match_below(76, 12));
    } else if c == 77 {
        assert(rows_match_below(77, 12));
    } else if c == 78 {
        assert(rows_match_below(78, 12));
    } else if c == 79 {
        assert(rows_match_below(79, 12));
    } else if c == 80 {
        assert(rows_match_below(80, 12));
    } else if c == 81 {
        assert(rows_match_below(81, 12));
    } else if c == 82 {
        assert(rows_match_below(82, 12));
    } else if c == 83 {
        assert(rows_match_below(83, 12));
    } else if c == 84 {
        assert(rows_match_below(84, 12));
    } else if c == 85 {
        assert(rows_match_below(85, 12));
    } else if c == 86 {
        assert(rows_match_below(86, 12));
    } else if c == 87 {
        assert(rows_match_below(87, 12));
    } else if c == 88 {
        assert(rows_match_below(88, 12));
    } else if c == 89 {
        assert(rows_match_below(89, 12));
    } else if c == 90 {
        assert(rows_match_below(90, 12));
    } else if c == 91 {
        assert(rows_match_below(91, 12));
    } else if c == 92 {
        assert(rows_match_below(92, 12));
    } else if c == 93 {
        assert(rows_match_below(93, 12));
    } else if c == 94 {
        assert(rows_match_below(94, 12));
    } else {
        assert(rows_match_below(95, 12));
    }
}

#[verifier::rlimit(100)]
proof fn lemma_match_s(c: int)
    requires
        96 <= c < 128,
    ensures
        rows_match_below(c, 12),
{
    reveal_with_fuel(rows_match_below, 13);
    reveal_with_fuel(row_has_edge, 16);
    reveal(spec_row_a);
    reveal(spec_row_b);
    reveal(spec_row_c);
    reveal(spec_row_d);
    if c == 96 {
        assert(rows_match_below(96, 12));
    } else if c == 97 {
        assert(rows_match_below(97, 12));
    } else if c == 98 {
        assert(rows_match_below(98, 12));
    } else if c == 99 {
        assert(rows_match_below(99, 12));
    } else if c == 100 {
        assert(rows_match_below(100, 12));
    } else if c == 101 {
        assert(rows_match_below(101, 12));
    } else if c == 102 {
        assert(rows_match_below(102, 12));
    } else if c == 103 {
        assert(rows_match_below(103, 12));
    } else if c == 104 {
        assert(rows_match_below(104, 12));
    } else if c == 105 {
        assert(rows_match_below(105, 12));
    } else if c == 106 {
        assert(rows_match_below(106, 12));
    } else if c == 107 {
        assert(rows_match_below(107, 12));
    } else if c == 108 {
        assert(rows_match_below(108, 12));
    } else if c == 109 {
        assert(rows_match_below(109, 12));
    } else if c == 110 {
        assert(rows_match_below(110, 12));
    } else if c == 111 {
        assert(rows_match_below(111, 12));
    } else if c == 112 {
        assert(rows_match_below(112, 12));
    } else if c == 113 {
        assert(rows_match_below(113, 12));
    } else if c == 114 {
        assert(rows_match_below(114, 12));
    } else if c == 115 {
        assert(rows_match_below(115, 12));
    } else if c == 116 {
        assert(rows_match_below(116, 12));
    } else if c == 117 {
        assert(rows_match_below(117, 12));
    } else if c == 118 {
        assert(rows_match_below(118, 12));
    } else if c == 119 {
        assert(rows_match_below(119, 12));
    } else if c == 120 {
        assert(rows_match_below(120, 12));
    } else if c == 121 {
        assert(rows_match_below(121, 12));
    } else if c == 122 {
        assert(rows_match_below(122, 12));
    } else if c == 123 {
        assert(rows_match_below(123, 12));
    } else if c == 124 {
        assert(rows_match_below(124, 12));
    } else if c == 125 {
        assert(rows_match_below(125, 12));
    } else if c == 126 {
        assert(rows_match_below(126, 12));
    } else {
        assert(rows_match_below(127, 12));
    }
}

/// Complement symmetry: configuration `c` and its bitwise complement
/// `255 - c` triangulate the same set of cube edges (the winding may
/// differ).
pub proof fn lemma_table_symmetry(c: int, e: u8)
    requires
        0 <= c < 256,
        e < 12,
    ensures
        spec_row(c).contains(e) <==> spec_row(255 - c).contains(e),
{
    let d = if c < 128 {
        c
    } else {
        255 - c
    };
    if d < 32 {
        lemma_match_p(d);
    } else if d < 64 {
        lemma_match_q(d);
    } else if d < 96 {
        lemma_match_r(d);
    } else {
        lemma_match_s(d);
    }
    lemma_rows_match_below_at(d, 12, e as int);
    lemma_row_has_edge_contains(spec_row(c), e, spec_row(c).len() as int);
    lemma_row_has_edge_contains(spec_row(255 - c), e, spec_row(255 - c).len() as int);
}

/// The triangulation of configuration `c`, three edge indices per
/// triangle in winding order; empty when the cell is fully inside or
/// fully outside.
pub fn tri_row(c: u8) -> (r: Vec<u8>)
    ensures
        r@ == spec_row(c as int),
        r@.len() % 3 == 0,
        r@.len() <= 15,
        forall|i: int| 0 <= i < r@.len() ==> r@[i] < 12,
{
    proof {
        lemma_row_valid(c as int);
    }
    if c < 64 {
        tri_row_a(c)
    } else if c < 128 {
        tri_row_b(c)
    } else if c < 192 {
        tri_row_c(c)
    } else {
        tri_row_d(c)
    }
}

/// First endpoint corner of each cube edge.
pub open spec fn spec_corner_a(e: int) -> int {
    if e == 0 {
        0
    } else if e == 1 {
        1
    } else if e == 2 {
        2
    } else if e == 3 {
        3
    } else if e == 4 {
        4
    } else if e == 5 {
        5
    } else if e == 6 {
        6
    } else if e == 7 {
        7
    } else if e == 8 {
        0
    } else if e == 9 {
        1
    } else if e == 10 {
        2
    } else {
        3
    }
}

/// Second endpoint corner of each cube edge.
pub open spec fn spec_corner_b(e: int) -> int {
    if e == 0 {
        1
    } else if e == 1 {
        2
    } else if e == 2 {
        3
    } else if e == 3 {
        0
    } else if e == 4 {
        5
    } else if e == 5 {
        6
    } else if e == 6 {
        7
    } else if e == 7 {
        4
    } else if e == 8 {
        4
    } else if e == 9 {
        5
    } else if e == 10 {
        6
    } else {
        7
    }
}

/// First endpoint corner of edge `e`.
pub fn corner_index_a(e: u8) -> (r: u8)
    requires
        e < 12,
    ensures
        r as int == spec_corner_a(e as int),
        r < 8,
{
    match e {
        0 => 0,
        1 => 1,
        2 => 2,
        3 => 3,
        4 => 4,
        5 => 5,
        6 => 6,
        7 => 7,
        8 => 0,
        9 => 1,
        10 => 2,
        _ => 3,
    }
}

/// Second endpoint corner of edge `e`.
pub fn corner_index_b(e: u8) -> (r: u8)
    requires
        e < 12,
    ensures
        r as int == spec_corner_b(e as int),
        r < 8,
{
    match e {
        0 => 1,
        1 => 2,
        2 => 3,
        3 => 0,
        4 => 5,
        5 => 6,
        6 => 7,
        7 => 4,
        8 => 4,
        9 => 5,
        10 => 6,
        _ => 7,
    }
}

} // verus!
