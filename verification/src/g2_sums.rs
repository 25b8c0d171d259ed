//! Sums of the multiples of the G2 generator `H`, computed point by point; the additivity
//! of the pairing in its second argument, and its bilinearity for the residues below 101 on
//! the G2 side.
use crate::g2_multiples::{g2_pt, lemma_g2_add_at, lemma_g2_double_at};
use crate::pairing::{pairing_defined, sproject, spairing, GT};
use crate::pairing_values::{
    col_point, e_gen, lemma_distort_at, lemma_e_gen, lemma_g1_multiple_0, lemma_h_multiple, lemma_pairing_bilinear_small,
    lemma_pairing_column, lemma_pairing_column_17, lemma_pow_mod_order, lemma_powers,
};
use crate::pairing::gt_of;
use crate::tiny_field::{G1Point, G2Point};
use vstd::arithmetic::div_mod::{lemma_mod_mod, lemma_mod_multiples_basic, lemma_mul_mod_noop_left, lemma_mul_mod_noop_right};
use vstd::prelude::*;

verus! {

proof fn lemma_sum_1_1()
    ensures
        g2_pt(0, 3, 9, 49).add_defined(g2_pt(0, 3, 9, 49)),
        g2_pt(0, 3, 9, 49).sadd(g2_pt(0, 3, 9, 49)) == g2_pt(38, 33, 61, 75),
        sproject(g2_pt(38, 33, 61, 75)) == col_point(2),
{
    lemma_g2_double_at(
        (0, 3),
        (9, 49),
        (92, 0),
        (74, 0),
        (18, 98),
        30,
        64,
        (41, 91),
        (4, 68),
        (38, 39),
        (38, 33),
        (70, 23),
        (61, 75),
        (-1, 0, 2, 0, 0, 0, 98, 19, 11, -63),
        (30, 66, -46, 5, 0, 0, 18, -27, 0, -1),
    );
    assert(g2_pt(0, 3, 9, 49).sadd(g2_pt(0, 3, 9, 49)) == g2_pt(0, 3, 9, 49).sdouble());
    lemma_distort_at(38, 33, 61, 75, 65, 3, 3, 8);
}

proof fn lemma_sum_1_2()
    ensures
        g2_pt(0, 3, 9, 49).add_defined(g2_pt(38, 33, 61, 75)),
        g2_pt(0, 3, 9, 49).sadd(g2_pt(38, 33, 61, 75)) == g2_pt(19, 91, 88, 44),
        sproject(g2_pt(19, 91, 88, 44)) == col_point(3),
{
    lemma_g2_add_at(
        (0, 3),
        (9, 49),
        (38, 33),
        (61, 75),
        (52, 26),
        (38, 30),
        21,
        77,
        (98, 13),
        (11, 93),
        (57, 26),
        (19, 91),
        (97, 93),
        (88, 44),
        (0, 0, 0, 0, 23, 16, 28, -23, 47, 31),
        (-85, 20, 0, -1, 78, -28, 0, 0),
    );
    lemma_distort_at(19, 91, 88, 44, 20, 9, 23, 5);
}

proof fn lemma_sum_1_3()
    ensures
        g2_pt(0, 3, 9, 49).add_defined(g2_pt(19, 91, 88, 44)),
        g2_pt(0, 3, 9, 49).sadd(g2_pt(19, 91, 88, 44)) == g2_pt(5, 72, 16, 44),
        sproject(g2_pt(5, 72, 16, 44)) == col_point(4),
{
    lemma_g2_add_at(
        (0, 3),
        (9, 49),
        (19, 91),
        (88, 44),
        (79, 96),
        (19, 88),
        25,
        97,
        (25, 49),
        (99, 9),
        (24, 65),
        (5, 72),
        (25, 93),
        (16, 44),
        (0, -1, 0, 0, 80, 24, 18, -85, -28, 62),
        (96, 17, 0, -1, 1, -69, 0, 0),
    );
    lemma_distort_at(5, 72, 16, 44, 18, 7, 52, 4);
}

proof fn lemma_sum_1_4()
    ensures
        g2_pt(0, 3, 9, 49).add_defined(g2_pt(5, 72, 16, 44)),
        g2_pt(0, 3, 9, 49).sadd(g2_pt(5, 72, 16, 44)) == g2_pt(69, 33, 71, 86),
        sproject(g2_pt(69, 33, 71, 86)) == col_point(5),
{
    lemma_g2_add_at(
        (0, 3),
        (9, 49),
        (5, 72),
        (16, 44),
        (7, 96),
        (5, 69),
        39,
        57,
        (83, 6),
        (5, 31),
        (74, 7),
        (69, 33),
        (80, 34),
        (71, 86),
        (0, -1, 0, 0, 47, 22, 2, -39, 0, 79),
        (-10, 3, 0, -1, 5, -23, 0, -1),
    );
    lemma_distort_at(69, 33, 71, 86, 96, 3, 22, 9);
}

proof fn lemma_sum_1_5()
    ensures
        g2_pt(0, 3, 9, 49).add_defined(g2_pt(69, 33, 71, 86)),
        g2_pt(0, 3, 9, 49).sadd(g2_pt(69, 33, 71, 86)) == g2_pt(57, 46, 17, 52),
        sproject(g2_pt(57, 46, 17, 52)) == col_point(6),
{
    lemma_g2_add_at(
        (0, 3),
        (9, 49),
        (69, 33),
        (71, 86),
        (62, 37),
        (69, 30),
        5,
        81,
        (34, 95),
        (7, 78),
        (25, 82),
        (57, 46),
        (26, 0),
        (17, 52),
        (0, 0, 0, 0, 56, 4, 55, -25, -14, 70),
        (-60, 10, -1, 0, 29, -47, 0, -1),
    );
    lemma_distort_at(57, 46, 17, 52, 12, 5, 32, 5);
}

proof fn lemma_sum_1_6()
    ensures
        g2_pt(0, 3, 9, 49).add_defined(g2_pt(57, 46, 17, 52)),
        g2_pt(0, 3, 9, 49).sadd(g2_pt(57, 46, 17, 52)) == g2_pt(81, 47, 93, 16),
        sproject(g2_pt(81, 47, 93, 16)) == col_point(7),
{
    lemma_g2_add_at(
        (0, 3),
        (9, 49),
        (57, 46),
        (17, 52),
        (8, 3),
        (57, 43),
        48,
        40,
        (58, 98),
        (69, 49),
        (37, 96),
        (81, 47),
        (1, 65),
        (93, 16),
        (0, 0, 0, 0, 50, 19, 22, -18, 1, 9),
        (23, 66, -1, 0, -34, -70, -1, 0),
    );
    lemma_distort_at(81, 47, 93, 16, 46, 5, 51, 2);
}

proof fn lemma_sum_1_7()
    ensures
        g2_pt(0, 3, 9, 49).add_defined(g2_pt(81, 47, 93, 16)),
        g2_pt(0, 3, 9, 49).sadd(g2_pt(81, 47, 93, 16)) == g2_pt(18, 69, 94, 11),
        sproject(g2_pt(18, 69, 94, 11)) == col_point(8),
{
    lemma_g2_add_at(
        (0, 3),
        (9, 49),
        (81, 47),
        (93, 16),
        (84, 68),
        (81, 44),
        13,
        70,
        (14, 51),
        (31, 85),
        (99, 18),
        (18, 69),
        (2, 60),
        (94, 11),
        (0, -1, 0, 0, 84, 9, 56, -31, -23, 51),
        (-63, 52, 0, -1, 50, -36, -1, 0),
    );
    lemma_distort_at(18, 69, 94, 11, 1, 7, 2, 2);
}

proof fn lemma_sum_1_8()
    ensures
        g2_pt(0, 3, 9, 49).add_defined(g2_pt(18, 69, 94, 11)),
        g2_pt(0, 3, 9, 49).sadd(g2_pt(18, 69, 94, 11)) == g2_pt(83, 80, 84, 22),
        sproject(g2_pt(83, 80, 84, 22)) == col_point(9),
{
    lemma_g2_add_at(
        (0, 3),
        (9, 49),
        (18, 69),
        (94, 11),
        (85, 63),
        (18, 66),
        34,
        3,
        (54, 4),
        (96, 5),
        (0, 51),
        (83, 80),
        (93, 71),
        (84, 22),
        (0, -1, 0, 0, 46, 1, 0, -2, 42, 37),
        (91, 9, -1, -1, -76, -78, 0, 0),
    );
    lemma_distort_at(83, 80, 84, 22, 75, 8, 1, 3);
}

proof fn lemma_sum_1_9()
    ensures
        g2_pt(0, 3, 9, 49).add_defined(g2_pt(83, 80, 84, 22)),
        g2_pt(0, 3, 9, 49).sadd(g2_pt(83, 80, 84, 22)) == g2_pt(65, 87, 47, 11),
        sproject(g2_pt(65, 87, 47, 11)) == col_point(10),
{
    lemma_g2_add_at(
        (0, 3),
        (9, 49),
        (83, 80),
        (84, 22),
        (75, 74),
        (83, 77),
        92,
        56,
        (2, 31),
        (78, 49),
        (47, 69),
        (65, 87),
        (56, 60),
        (47, 11),
        (0, -1, 0, 0, 126, 51, 46, -43, -22, 24),
        (36, 75, -1, -1, -10, -97, 0, 0),
    );
    lemma_distort_at(65, 87, 47, 11, 26, 9, 56, 1);
}

proof fn lemma_sum_1_10()
    ensures
        g2_pt(0, 3, 9, 49).add_defined(g2_pt(65, 87, 47, 11)),
        g2_pt(0, 3, 9, 49).sadd(g2_pt(65, 87, 47, 11)) == g2_pt(61, 30, 84, 76),
        sproject(g2_pt(61, 30, 84, 76)) == col_point(11),
{
    lemma_g2_add_at(
        (0, 3),
        (9, 49),
        (65, 87),
        (47, 11),
        (38, 63),
        (65, 84),
        70,
        13,
        (37, 19),
        (7, 23),
        (25, 19),
        (61, 30),
        (93, 24),
        (84, 76),
        (0, -1, 0, 0, 111, 9, 8, -11, 2, 30),
        (-5, 3, -1, -1, 1, -16, 0, -1),
    );
    lemma_distort_at(61, 30, 84, 76, 58, 3, 36, 8);
}

proof fn lemma_sum_1_11()
    ensures
        g2_pt(0, 3, 9, 49).add_defined(g2_pt(61, 30, 84, 76)),
        g2_pt(0, 3, 9, 49).sadd(g2_pt(61, 30, 84, 76)) == g2_pt(29, 87, 70, 40),
        sproject(g2_pt(29, 87, 70, 40)) == col_point(12),
{
    lemma_g2_add_at(
        (0, 3),
        (9, 49),
        (61, 30),
        (84, 76),
        (75, 27),
        (61, 27),
        6,
        17,
        (27, 46),
        (76, 38),
        (90, 19),
        (29, 87),
        (79, 89),
        (70, 40),
        (0, 0, 0, 0, 44, 1, 10, -5, 7, 41),
        (42, 57, 0, -1, 9, -75, 0, 0),
    );
    lemma_distort_at(29, 87, 70, 40, 91, 8, 66, 4);
}

proof fn lemma_sum_1_12()
    ensures
        g2_pt(0, 3, 9, 49).add_defined(g2_pt(29, 87, 70, 40)),
        g2_pt(0, 3, 9, 49).sadd(g2_pt(29, 87, 70, 40)) == g2_pt(4, 46, 3, 36),
        sproject(g2_pt(4, 46, 3, 36)) == col_point(13),
{
    lemma_g2_add_at(
        (0, 3),
        (9, 49),
        (29, 87),
        (70, 40),
        (61, 92),
        (29, 84),
        19,
        16,
        (60, 70),
        (48, 94),
        (33, 35),
        (4, 46),
        (12, 85),
        (3, 36),
        (0, -1, 0, 0, 78, 3, 4, -14, -28, 96),
        (-65, 89, 0, -1, 38, -25, 0, 0),
    );
    lemma_distort_at(4, 46, 3, 36, 60, 4, 60, 3);
}

proof fn lemma_sum_1_13()
    ensures
        g2_pt(0, 3, 9, 49).add_defined(g2_pt(4, 46, 3, 36)),
        g2_pt(0, 3, 9, 49).sadd(g2_pt(4, 46, 3, 36)) == g2_pt(42, 100, 84, 16),
        sproject(g2_pt(42, 100, 84, 16)) == col_point(14),
{
    lemma_g2_add_at(
        (0, 3),
        (9, 49),
        (4, 46),
        (3, 36),
        (95, 88),
        (4, 43),
        47,
        43,
        (71, 70),
        (80, 71),
        (46, 48),
        (42, 100),
        (93, 65),
        (84, 16),
        (-1, -1, 0, 0, 18, 20, 1, -19, 5, 127),
        (13, 112, 0, -1, 34, -107, 0, 0),
    );
    lemma_distort_at(42, 100, 84, 16, 32, 10, 42, 2);
}

proof fn lemma_sum_1_14()
    ensures
        g2_pt(0, 3, 9, 49).add_defined(g2_pt(42, 100, 84, 16)),
        g2_pt(0, 3, 9, 49).sadd(g2_pt(42, 100, 84, 16)) == g2_pt(71, 14, 32, 68),
        sproject(g2_pt(71, 14, 32, 68)) == col_point(15),
{
    lemma_g2_add_at(
        (0, 3),
        (9, 49),
        (42, 100),
        (84, 16),
        (75, 68),
        (42, 97),
        63,
        93,
        (68, 69),
        (4, 2),
        (12, 16),
        (71, 14),
        (41, 16),
        (32, 68),
        (0, -1, 0, 0, 110, 58, 38, -90, 4, 97),
        (0, 0, -1, -1, -3, -2, 0, -1),
    );
    lemma_distort_at(71, 14, 32, 68, 9, 2, 5, 7);
}

proof fn lemma_sum_1_15()
    ensures
        g2_pt(0, 3, 9, 49).add_defined(g2_pt(71, 14, 32, 68)),
        g2_pt(0, 3, 9, 49).sadd(g2_pt(71, 14, 32, 68)) == g2_pt(93, 48, 94, 99),
        sproject(g2_pt(93, 48, 94, 99)) == col_point(16),
{
    lemma_g2_add_at(
        (0, 3),
        (9, 49),
        (71, 14),
        (32, 68),
        (23, 19),
        (71, 11),
        11,
        46,
        (34, 100),
        (94, 17),
        (63, 65),
        (93, 48),
        (2, 47),
        (94, 99),
        (0, 0, 0, 0, 51, 5, 32, -6, -12, 29),
        (84, 31, -1, 0, -79, -58, -1, -1),
    );
    lemma_distort_at(93, 48, 94, 99, 68, 5, 74, 10);
}

proof fn lemma_sum_1_16()
    ensures
        g2_pt(0, 3, 9, 49).add_defined(g2_pt(93, 48, 94, 99)),
        g2_pt(0, 3, 9, 49).sadd(g2_pt(93, 48, 94, 99)) == g2_pt(88, 97, 86, 52),
        sproject(g2_pt(88, 97, 86, 52)) == col_point(17),
{
    lemma_g2_add_at(
        (0, 3),
        (9, 49),
        (93, 48),
        (94, 99),
        (85, 50),
        (93, 45),
        69,
        41,
        (76, 74),
        (33, 91),
        (80, 47),
        (88, 97),
        (95, 0),
        (86, 52),
        (0, 0, 0, 0, 105, 28, 37, -19, 27, 99),
        (-72, 59, -1, -1, 55, -110, 0, -1),
    );
    lemma_distort_at(88, 97, 86, 52, 48, 10, 0, 6);
}

proof fn lemma_sum_2_1()
    ensures
        g2_pt(38, 33, 61, 75).add_defined(g2_pt(0, 3, 9, 49)),
        g2_pt(38, 33, 61, 75).sadd(g2_pt(0, 3, 9, 49)) == g2_pt(19, 91, 88, 44),
        sproject(g2_pt(19, 91, 88, 44)) == col_point(3),
{
    lemma_g2_add_at(
        (38, 33),
        (61, 75),
        (0, 3),
        (9, 49),
        (49, 75),
        (63, 71),
        21,
        77,
        (3, 88),
        (11, 93),
        (57, 26),
        (19, 91),
        (48, 18),
        (88, 44),
        (-1, -1, -1, -1, 89, 16, 48, -55, -64, 44),
        (-85, 20, 0, -1, 55, 11, -1, -1),
    );
    lemma_distort_at(19, 91, 88, 44, 20, 9, 23, 5);
}

proof fn lemma_sum_2_2()
    ensures
        g2_pt(38, 33, 61, 75).add_defined(g2_pt(38, 33, 61, 75)),
        g2_pt(38, 33, 61, 75).sadd(g2_pt(38, 33, 61, 75)) == g2_pt(5, 72, 16, 44),
        sproject(g2_pt(5, 72, 16, 44)) == col_point(4),
{
    lemma_g2_double_at(
        (38, 33),
        (61, 75),
        (52, 84),
        (55, 50),
        (21, 49),
        14,
        65,
        (52, 47),
        (5, 34),
        (81, 37),
        (5, 72),
        (77, 18),
        (16, 44),
        (3, 24, 1, 2, 1, 1, 28, 9, 13, -32),
        (5, 51, -12, 3, 0, -1, 14, 9, 0, -1),
    );
    assert(g2_pt(38, 33, 61, 75).sadd(g2_pt(38, 33, 61, 75)) == g2_pt(38, 33, 61, 75).sdouble());
    lemma_distort_at(5, 72, 16, 44, 18, 7, 52, 4);
}

proof fn lemma_sum_2_3()
    ensures
        g2_pt(38, 33, 61, 75).add_defined(g2_pt(19, 91, 88, 44)),
        g2_pt(38, 33, 61, 75).sadd(g2_pt(19, 91, 88, 44)) == g2_pt(69, 33, 71, 86),
        sproject(g2_pt(69, 33, 71, 86)) == col_point(5),
{
    lemma_g2_add_at(
        (38, 33),
        (61, 75),
        (19, 91),
        (88, 44),
        (27, 70),
        (82, 58),
        89,
        42,
        (10, 89),
        (100, 73),
        (25, 56),
        (69, 33),
        (31, 60),
        (71, 86),
        (0, -1, -1, 0, 99, 37, 34, -25, -60, 30),
        (46, 144, -1, -1, -31, -23, -1, -1),
    );
    lemma_distort_at(69, 33, 71, 86, 96, 3, 22, 9);
}

proof fn lemma_sum_2_4()
    ensures
        g2_pt(38, 33, 61, 75).add_defined(g2_pt(5, 72, 16, 44)),
        g2_pt(38, 33, 61, 75).sadd(g2_pt(5, 72, 16, 44)) == g2_pt(57, 46, 17, 52),
        sproject(g2_pt(57, 46, 17, 52)) == col_point(6),
{
    lemma_g2_add_at(
        (38, 33),
        (61, 75),
        (5, 72),
        (16, 44),
        (56, 70),
        (68, 39),
        85,
        82,
        (21, 34),
        (8, 41),
        (100, 50),
        (57, 46),
        (78, 26),
        (17, 52),
        (-1, -1, -1, 0, 60, 69, 55, -32, -12, 33),
        (-17, 6, 0, -1, 3, -9, 0, -1),
    );
    lemma_distort_at(57, 46, 17, 52, 12, 5, 32, 5);
}

proof fn lemma_sum_2_5()
    ensures
        g2_pt(38, 33, 61, 75).add_defined(g2_pt(69, 33, 71, 86)),
        g2_pt(38, 33, 61, 75).sadd(g2_pt(69, 33, 71, 86)) == g2_pt(81, 47, 93, 16),
        sproject(g2_pt(81, 47, 93, 16)) == col_point(7),
{
    lemma_g2_add_at(
        (38, 33),
        (61, 75),
        (69, 33),
        (71, 86),
        (10, 11),
        (31, 0),
        52,
        68,
        (88, 0),
        (72, 59),
        (87, 12),
        (81, 47),
        (53, 91),
        (93, 16),
        (0, 0, 0, 0, 9, 35, 20, 0, 8, 9),
        (16, 84, -1, -1, -23, -36, -1, 0),
    );
    lemma_distort_at(81, 47, 93, 16, 46, 5, 51, 2);
}

proof fn lemma_sum_2_6()
    ensures
        g2_pt(38, 33, 61, 75).add_defined(g2_pt(57, 46, 17, 52)),
        g2_pt(38, 33, 61, 75).sadd(g2_pt(57, 46, 17, 52)) == g2_pt(18, 69, 94, 11),
        sproject(g2_pt(18, 69, 94, 11)) == col_point(8),
{
    lemma_g2_add_at(
        (38, 33),
        (61, 75),
        (57, 46),
        (17, 52),
        (57, 78),
        (19, 13),
        25,
        97,
        (25, 52),
        (96, 66),
        (12, 47),
        (18, 69),
        (54, 86),
        (94, 11),
        (-1, -1, 0, 0, 5, 24, 18, -13, -27, 48),
        (48, 125, -1, -1, 42, -22, -1, 0),
    );
    lemma_distort_at(18, 69, 94, 11, 1, 7, 2, 2);
}

proof fn lemma_sum_2_7()
    ensures
        g2_pt(38, 33, 61, 75).add_defined(g2_pt(81, 47, 93, 16)),
        g2_pt(38, 33, 61, 75).sadd(g2_pt(81, 47, 93, 16)) == g2_pt(83, 80, 84, 22),
        sproject(g2_pt(83, 80, 84, 22)) == col_point(9),
{
    lemma_g2_add_at(
        (38, 33),
        (61, 75),
        (81, 47),
        (93, 16),
        (32, 42),
        (43, 14),
        25,
        97,
        (30, 56),
        (22, 22),
        (0, 59),
        (83, 80),
        (44, 97),
        (84, 22),
        (0, -1, 0, 0, 20, 24, 41, -14, -14, 30),
        (0, 9, -2, -1, 0, -21, -1, 0),
    );
    lemma_distort_at(83, 80, 84, 22, 75, 8, 1, 3);
}

proof fn lemma_sum_2_8()
    ensures
        g2_pt(38, 33, 61, 75).add_defined(g2_pt(18, 69, 94, 11)),
        g2_pt(38, 33, 61, 75).sadd(g2_pt(18, 69, 94, 11)) == g2_pt(65, 87, 47, 11),
        sproject(g2_pt(65, 87, 47, 11)) == col_point(10),
{
    lemma_g2_add_at(
        (38, 33),
        (61, 75),
        (18, 69),
        (94, 11),
        (33, 37),
        (81, 36),
        80,
        24,
        (25, 45),
        (69, 87),
        (20, 88),
        (65, 87),
        (7, 86),
        (47, 11),
        (0, -1, -1, 0, 77, 19, 19, -9, -9, 23),
        (-28, 118, -1, -1, 28, -61, -1, 0),
    );
    lemma_distort_at(65, 87, 47, 11, 26, 9, 56, 1);
}

proof fn lemma_sum_2_9()
    ensures
        g2_pt(38, 33, 61, 75).add_defined(g2_pt(83, 80, 84, 22)),
        g2_pt(38, 33, 61, 75).sadd(g2_pt(83, 80, 84, 22)) == g2_pt(61, 30, 84, 76),
        sproject(g2_pt(61, 30, 84, 76)) == col_point(11),
{
    lemma_g2_add_at(
        (38, 33),
        (61, 75),
        (83, 80),
        (84, 22),
        (23, 48),
        (45, 47),
        93,
        63,
        (7, 69),
        (81, 4),
        (81, 42),
        (61, 30),
        (44, 50),
        (84, 76),
        (0, -1, 0, 0, 41, 58, 28, -30, -32, 19),
        (64, 6, -1, -1, -19, 1, -1, -1),
    );
    lemma_distort_at(61, 30, 84, 76, 58, 3, 36, 8);
}

proof fn lemma_sum_2_10()
    ensures
        g2_pt(38, 33, 61, 75).add_defined(g2_pt(65, 87, 47, 11)),
        g2_pt(38, 33, 61, 75).sadd(g2_pt(65, 87, 47, 11)) == g2_pt(29, 87, 70, 40),
        sproject(g2_pt(29, 87, 70, 40)) == col_point(12),
{
    lemma_g2_add_at(
        (38, 33),
        (61, 75),
        (65, 87),
        (47, 11),
        (87, 37),
        (27, 54),
        9,
        45,
        (3, 95),
        (79, 94),
        (31, 5),
        (29, 87),
        (30, 14),
        (70, 40),
        (-1, -1, 0, 0, 36, 4, 12, -25, -33, 82),
        (-26, 147, -1, -2, 57, -34, -1, -1),
    );
    lemma_distort_at(29, 87, 70, 40, 91, 8, 66, 4);
}

proof fn lemma_sum_2_11()
    ensures
        g2_pt(38, 33, 61, 75).add_defined(g2_pt(61, 30, 84, 76)),
        g2_pt(38, 33, 61, 75).sadd(g2_pt(61, 30, 84, 76)) == g2_pt(4, 46, 3, 36),
        sproject(g2_pt(4, 46, 3, 36)) == col_point(13),
{
    lemma_g2_add_at(
        (38, 33),
        (61, 75),
        (61, 30),
        (84, 76),
        (23, 1),
        (23, 98),
        33,
        49,
        (16, 46),
        (19, 64),
        (2, 8),
        (4, 46),
        (64, 10),
        (3, 36),
        (0, 0, 0, -1, 100, 16, 11, -48, 3, 10),
        (-37, 24, -1, -1, 14, 19, 0, -1),
    );
    lemma_distort_at(4, 46, 3, 36, 60, 4, 60, 3);
}

proof fn lemma_sum_2_12()
    ensures
        g2_pt(38, 33, 61, 75).add_defined(g2_pt(29, 87, 70, 40)),
        g2_pt(38, 33, 61, 75).sadd(g2_pt(29, 87, 70, 40)) == g2_pt(42, 100, 84, 16),
        sproject(g2_pt(42, 100, 84, 16)) == col_point(14),
{
    lemma_g2_add_at(
        (38, 33),
        (61, 75),
        (29, 87),
        (70, 40),
        (9, 66),
        (92, 54),
        68,
        52,
        (37, 20),
        (23, 97),
        (8, 18),
        (42, 100),
        (44, 91),
        (84, 16),
        (0, -1, -1, 0, 112, 35, 47, -28, -10, 25),
        (-88, 44, -1, -2, 63, -20, -1, 0),
    );
    lemma_distort_at(42, 100, 84, 16, 32, 10, 42, 2);
}

proof fn lemma_sum_2_13()
    ensures
        g2_pt(38, 33, 61, 75).add_defined(g2_pt(4, 46, 3, 36)),
        g2_pt(38, 33, 61, 75).sadd(g2_pt(4, 46, 3, 36)) == g2_pt(71, 14, 32, 68),
        sproject(g2_pt(71, 14, 32, 68)) == col_point(15),
{
    lemma_g2_add_at(
        (38, 33),
        (61, 75),
        (4, 46),
        (3, 36),
        (43, 62),
        (67, 13),
        12,
        59,
        (14, 41),
        (80, 5),
        (12, 93),
        (71, 14),
        (93, 42),
        (32, 68),
        (-1, -1, -1, 0, 46, 7, 39, -8, -20, 26),
        (63, 7, -1, 0, -28, 13, 0, -1),
    );
    lemma_distort_at(71, 14, 32, 68, 9, 2, 5, 7);
}

proof fn lemma_sum_2_14()
    ensures
        g2_pt(38, 33, 61, 75).add_defined(g2_pt(42, 100, 84, 16)),
        g2_pt(38, 33, 61, 75).sadd(g2_pt(42, 100, 84, 16)) == g2_pt(93, 48, 94, 99),
        sproject(g2_pt(93, 48, 94, 99)) == col_point(16),
{
    lemma_g2_add_at(
        (38, 33),
        (61, 75),
        (42, 100),
        (84, 16),
        (23, 42),
        (4, 67),
        61,
        53,
        (10, 85),
        (94, 52),
        (72, 80),
        (93, 48),
        (54, 73),
        (94, 99),
        (0, -1, 0, 0, 44, 32, 2, -36, -34, 23),
        (60, 96, -1, -1, -44, -43, -1, -1),
    );
    lemma_distort_at(93, 48, 94, 99, 68, 5, 74, 10);
}

proof fn lemma_sum_2_15()
    ensures
        g2_pt(38, 33, 61, 75).add_defined(g2_pt(71, 14, 32, 68)),
        g2_pt(38, 33, 61, 75).sadd(g2_pt(71, 14, 32, 68)) == g2_pt(88, 97, 86, 52),
        sproject(g2_pt(88, 97, 86, 52)) == col_point(17),
{
    lemma_g2_add_at(
        (38, 33),
        (61, 75),
        (71, 14),
        (32, 68),
        (72, 94),
        (33, 82),
        36,
        87,
        (43, 37),
        (22, 40),
        (96, 43),
        (88, 97),
        (46, 26),
        (86, 52),
        (-1, -1, 0, -1, 77, 31, 28, -71, -4, 66),
        (-12, 17, -1, -1, 14, -34, -1, -1),
    );
    lemma_distort_at(88, 97, 86, 52, 48, 10, 0, 6);
}

proof fn lemma_sum_2_16()
    ensures
        g2_pt(38, 33, 61, 75).add_defined(g2_pt(93, 48, 94, 99)),
        g2_pt(38, 33, 61, 75).sadd(g2_pt(93, 48, 94, 99)) == g2_pt(47, 93, 36, 90),
        sproject(g2_pt(47, 93, 36, 90)) == col_point(18),
{
    lemma_g2_add_at(
        (38, 33),
        (61, 75),
        (93, 48),
        (94, 99),
        (33, 24),
        (55, 15),
        18,
        73,
        (76, 16),
        (3, 29),
        (77, 73),
        (47, 93),
        (97, 64),
        (36, 90),
        (0, 0, 0, 0, 32, 13, 39, -11, 21, 23),
        (-9, 1, -1, -1, 16, -5, 0, -1),
    );
    lemma_distort_at(47, 93, 36, 90, 68, 9, 27, 9);
}

proof fn lemma_sum_3_1()
    ensures
        g2_pt(19, 91, 88, 44).add_defined(g2_pt(0, 3, 9, 49)),
        g2_pt(19, 91, 88, 44).sadd(g2_pt(0, 3, 9, 49)) == g2_pt(5, 72, 16, 44),
        sproject(g2_pt(5, 72, 16, 44)) == col_point(4),
{
    lemma_g2_add_at(
        (19, 91),
        (88, 44),
        (0, 3),
        (9, 49),
        (22, 5),
        (82, 13),
        25,
        97,
        (76, 52),
        (99, 9),
        (24, 65),
        (5, 72),
        (3, 88),
        (16, 44),
        (-1, 0, -1, -1, 68, 24, 78, -13, 13, 15),
        (96, 17, 0, -1, 12, 19, -1, 0),
    );
    lemma_distort_at(5, 72, 16, 44, 18, 7, 52, 4);
}

proof fn lemma_sum_3_2()
    ensures
        g2_pt(19, 91, 88, 44).add_defined(g2_pt(38, 33, 61, 75)),
        g2_pt(19, 91, 88, 44).sadd(g2_pt(38, 33, 61, 75)) == g2_pt(69, 33, 71, 86),
        sproject(g2_pt(69, 33, 71, 86)) == col_point(5),
{
    lemma_g2_add_at(
        (19, 91),
        (88, 44),
        (38, 33),
        (61, 75),
        (74, 31),
        (19, 43),
        89,
        42,
        (91, 12),
        (100, 73),
        (25, 56),
        (69, 33),
        (58, 29),
        (71, 86),
        (-1, 0, 0, -1, 21, 37, 7, -18, 62, 36),
        (46, 144, -1, -1, -92, 21, -1, -1),
    );
    lemma_distort_at(69, 33, 71, 86, 96, 3, 22, 9);
}

proof fn lemma_sum_3_3()
    ensures
        g2_pt(19, 91, 88, 44).add_defined(g2_pt(19, 91, 88, 44)),
        g2_pt(19, 91, 88, 44).sadd(g2_pt(19, 91, 88, 44)) == g2_pt(57, 46, 17, 52),
        sproject(g2_pt(57, 46, 17, 52)) == col_point(6),
{
    lemma_g2_double_at(
        (19, 91),
        (88, 44),
        (59, 24),
        (76, 72),
        (75, 88),
        37,
        71,
        (73, 14),
        (96, 58),
        (95, 26),
        (57, 46),
        (4, 96),
        (17, 52),
        (-79, 34, 1, 0, 1, 0, 132, 26, 52, -62),
        (44, 62, 57, 110, 0, -2, -62, 20, -1, 0),
    );
    assert(g2_pt(19, 91, 88, 44).sadd(g2_pt(19, 91, 88, 44)) == g2_pt(19, 91, 88, 44).sdouble());
    lemma_distort_at(57, 46, 17, 52, 12, 5, 32, 5);
}

proof fn lemma_sum_3_4()
    ensures
        g2_pt(19, 91, 88, 44).add_defined(g2_pt(5, 72, 16, 44)),
        g2_pt(19, 91, 88, 44).sadd(g2_pt(5, 72, 16, 44)) == g2_pt(81, 47, 93, 16),
        sproject(g2_pt(81, 47, 93, 16)) == col_point(7),
{
    lemma_g2_add_at(
        (19, 91),
        (88, 44),
        (5, 72),
        (16, 44),
        (29, 0),
        (87, 82),
        52,
        68,
        (58, 80),
        (66, 98),
        (4, 8),
        (81, 47),
        (80, 60),
        (93, 16),
        (-1, 0, -1, -1, 141, 35, 58, -56, 16, 22),
        (-52, 128, -1, -2, -84, -32, -1, 0),
    );
    lemma_distort_at(81, 47, 93, 16, 46, 5, 51, 2);
}

proof fn lemma_sum_3_5()
    ensures
        g2_pt(19, 91, 88, 44).add_defined(g2_pt(69, 33, 71, 86)),
        g2_pt(19, 91, 88, 44).sadd(g2_pt(69, 33, 71, 86)) == g2_pt(18, 69, 94, 11),
        sproject(g2_pt(18, 69, 94, 11)) == col_point(8),
{
    lemma_g2_add_at(
        (19, 91),
        (88, 44),
        (69, 33),
        (71, 86),
        (84, 42),
        (50, 43),
        6,
        17,
        (42, 77),
        (92, 51),
        (5, 92),
        (18, 69),
        (81, 55),
        (94, 11),
        (-1, 0, 0, -1, 43, 1, 8, -8, 2, 81),
        (58, 92, -1, -1, -11, 20, -1, 0),
    );
    lemma_distort_at(18, 69, 94, 11, 1, 7, 2, 2);
}

proof fn lemma_sum_3_6()
    ensures
        g2_pt(19, 91, 88, 44).add_defined(g2_pt(57, 46, 17, 52)),
        g2_pt(19, 91, 88, 44).sadd(g2_pt(57, 46, 17, 52)) == g2_pt(83, 80, 84, 22),
        sproject(g2_pt(83, 80, 84, 22)) == col_point(9),
{
    lemma_g2_add_at(
        (19, 91),
        (88, 44),
        (57, 46),
        (17, 52),
        (30, 8),
        (38, 56),
        35,
        26,
        (79, 59),
        (80, 79),
        (58, 15),
        (83, 80),
        (71, 66),
        (84, 22),
        (-1, 0, 0, -1, 45, 9, 9, -15, 18, 23),
        (1, 125, -1, -2, -60, -42, -1, 0),
    );
    lemma_distort_at(83, 80, 84, 22, 75, 8, 1, 3);
}

proof fn lemma_sum_3_7()
    ensures
        g2_pt(19, 91, 88, 44).add_defined(g2_pt(81, 47, 93, 16)),
        g2_pt(19, 91, 88, 44).sadd(g2_pt(81, 47, 93, 16)) == g2_pt(65, 87, 47, 11),
        sproject(g2_pt(65, 87, 47, 11)) == col_point(10),
{
    lemma_g2_add_at(
        (19, 91),
        (88, 44),
        (81, 47),
        (93, 16),
        (5, 73),
        (62, 57),
        23,
        22,
        (51, 59),
        (89, 79),
        (64, 23),
        (65, 87),
        (34, 55),
        (47, 11),
        (0, -1, 0, -1, 70, 5, 13, -13, -41, 39),
        (16, 139, -1, -2, -44, -33, -1, 0),
    );
    lemma_distort_at(65, 87, 47, 11, 26, 9, 56, 1);
}

proof fn lemma_sum_3_8()
    ensures
        g2_pt(19, 91, 88, 44).add_defined(g2_pt(18, 69, 94, 11)),
        g2_pt(19, 91, 88, 44).sadd(g2_pt(18, 69, 94, 11)) == g2_pt(61, 30, 84, 76),
        sproject(g2_pt(61, 30, 84, 76)) == col_point(11),
{
    lemma_g2_add_at(
        (19, 91),
        (88, 44),
        (18, 69),
        (94, 11),
        (6, 68),
        (100, 79),
        81,
        5,
        (96, 9),
        (65, 17),
        (98, 89),
        (61, 30),
        (71, 19),
        (84, 76),
        (0, -1, -1, -1, 160, 4, 4, -4, -1, 65),
        (38, 21, 0, -1, -38, 32, -1, -1),
    );
    lemma_distort_at(61, 30, 84, 76, 58, 3, 36, 8);
}

proof fn lemma_sum_3_9()
    ensures
        g2_pt(19, 91, 88, 44).add_defined(g2_pt(83, 80, 84, 22)),
        g2_pt(19, 91, 88, 44).sadd(g2_pt(83, 80, 84, 22)) == g2_pt(29, 87, 70, 40),
        sproject(g2_pt(29, 87, 70, 40)) == col_point(12),
{
    lemma_g2_add_at(
        (19, 91),
        (88, 44),
        (83, 80),
        (84, 22),
        (97, 79),
        (64, 90),
        76,
        4,
        (54, 44),
        (45, 50),
        (30, 56),
        (29, 87),
        (57, 84),
        (70, 40),
        (-1, -1, 0, -1, 120, 3, 2, -4, 17, 84),
        (-5, 44, -1, -2, -7, -4, -1, 0),
    );
    lemma_distort_at(29, 87, 70, 40, 91, 8, 66, 4);
}

proof fn lemma_sum_3_10()
    ensures
        g2_pt(19, 91, 88, 44).add_defined(g2_pt(65, 87, 47, 11)),
        g2_pt(19, 91, 88, 44).sadd(g2_pt(65, 87, 47, 11)) == g2_pt(4, 46, 3, 36),
        sproject(g2_pt(4, 46, 3, 36)) == col_point(13),
{
    lemma_g2_add_at(
        (19, 91),
        (88, 44),
        (65, 87),
        (47, 11),
        (60, 68),
        (46, 97),
        11,
        46,
        (96, 83),
        (15, 95),
        (88, 22),
        (4, 46),
        (91, 80),
        (3, 36),
        (-1, -1, 0, -1, 114, 5, 20, -45, 1, 113),
        (-88, 28, 0, -2, -41, 20, 0, 0),
    );
    lemma_distort_at(4, 46, 3, 36, 60, 4, 60, 3);
}

proof fn lemma_sum_3_11()
    ensures
        g2_pt(19, 91, 88, 44).add_defined(g2_pt(61, 30, 84, 76)),
        g2_pt(19, 91, 88, 44).sadd(g2_pt(61, 30, 84, 76)) == g2_pt(42, 100, 84, 16),
        sproject(g2_pt(42, 100, 84, 16)) == col_point(14),
{
    lemma_g2_add_at(
        (19, 91),
        (88, 44),
        (61, 30),
        (84, 76),
        (97, 32),
        (42, 40),
        31,
        88,
        (60, 15),
        (88, 42),
        (21, 19),
        (42, 100),
        (71, 60),
        (84, 16),
        (-1, 0, 0, -1, 33, 27, 36, -35, 52, 33),
        (59, 73, -1, -2, -17, -18, -1, 0),
    );
    lemma_distort_at(42, 100, 84, 16, 32, 10, 42, 2);
}

proof fn lemma_sum_3_12()
    ensures
        g2_pt(19, 91, 88, 44).add_defined(g2_pt(29, 87, 70, 40)),
        g2_pt(19, 91, 88, 44).sadd(g2_pt(29, 87, 70, 40)) == g2_pt(71, 14, 32, 68),
        sproject(g2_pt(71, 14, 32, 68)) == col_point(15),
{
    lemma_g2_add_at(
        (19, 91),
        (88, 44),
        (29, 87),
        (70, 40),
        (83, 97),
        (10, 97),
        15,
        27,
        (68, 7),
        (16, 6),
        (18, 91),
        (71, 14),
        (19, 11),
        (32, 68),
        (-1, -1, 0, -1, 94, 4, 2, -26, 49, 71),
        (2, 1, -1, -1, -13, 9, -1, -1),
    );
    lemma_distort_at(71, 14, 32, 68, 9, 2, 5, 7);
}

proof fn lemma_sum_3_13()
    ensures
        g2_pt(19, 91, 88, 44).add_defined(g2_pt(4, 46, 3, 36)),
        g2_pt(19, 91, 88, 44).sadd(g2_pt(4, 46, 3, 36)) == g2_pt(93, 48, 94, 99),
        sproject(g2_pt(93, 48, 94, 99)) == col_point(16),
{
    lemma_g2_add_at(
        (19, 91),
        (88, 44),
        (4, 46),
        (3, 36),
        (16, 93),
        (86, 56),
        28,
        83,
        (68, 99),
        (62, 30),
        (15, 84),
        (93, 48),
        (81, 42),
        (94, 99),
        (-1, -1, -1, -1, 104, 23, 70, -47, -81, 78),
        (29, 36, -1, -1, -59, 4, -1, -1),
    );
    lemma_distort_at(93, 48, 94, 99, 68, 5, 74, 10);
}

proof fn lemma_sum_3_14()
    ensures
        g2_pt(19, 91, 88, 44).add_defined(g2_pt(42, 100, 84, 16)),
        g2_pt(19, 91, 88, 44).sadd(g2_pt(42, 100, 84, 16)) == g2_pt(88, 97, 86, 52),
        sproject(g2_pt(88, 97, 86, 52)) == col_point(17),
{
    lemma_g2_add_at(
        (19, 91),
        (88, 44),
        (42, 100),
        (84, 16),
        (97, 73),
        (23, 9),
        4,
        76,
        (31, 23),
        (15, 50),
        (48, 86),
        (88, 97),
        (73, 96),
        (86, 52),
        (-1, -1, 0, 0, 6, 3, 17, -7, 13, 44),
        (-23, 14, -1, -2, -8, -36, -1, 0),
    );
    lemma_distort_at(88, 97, 86, 52, 48, 10, 0, 6);
}

proof fn lemma_sum_3_15()
    ensures
        g2_pt(19, 91, 88, 44).add_defined(g2_pt(71, 14, 32, 68)),
        g2_pt(19, 91, 88, 44).sadd(g2_pt(71, 14, 32, 68)) == g2_pt(47, 93, 36, 90),
        sproject(g2_pt(47, 93, 36, 90)) == col_point(18),
{
    lemma_g2_add_at(
        (19, 91),
        (88, 44),
        (71, 14),
        (32, 68),
        (45, 24),
        (52, 24),
        48,
        40,
        (60, 50),
        (86, 54),
        (36, 97),
        (47, 93),
        (23, 33),
        (36, 90),
        (-1, 0, 0, -1, 32, 19, 20, -10, 14, 36),
        (44, 91, -1, -1, -23, -17, -1, -1),
    );
    lemma_distort_at(47, 93, 36, 90, 68, 9, 27, 9);
}

proof fn lemma_sum_3_16()
    ensures
        g2_pt(19, 91, 88, 44).add_defined(g2_pt(93, 48, 94, 99)),
        g2_pt(19, 91, 88, 44).sadd(g2_pt(93, 48, 94, 99)) == g2_pt(91, 12, 80, 42),
        sproject(g2_pt(91, 12, 80, 42)) == col_point(19),
{
    lemma_g2_add_at(
        (19, 91),
        (88, 44),
        (93, 48),
        (94, 99),
        (6, 55),
        (74, 58),
        53,
        61,
        (70, 98),
        (80, 95),
        (1, 50),
        (91, 12),
        (67, 86),
        (80, 42),
        (0, 0, 0, -1, 87, 32, 44, -36, -50, 43),
        (-26, 150, -2, -1, -132, -6, -1, 0),
    );
    lemma_distort_at(91, 12, 80, 42, 9, 2, 96, 4);
}

proof fn lemma_sum_4_1()
    ensures
        g2_pt(5, 72, 16, 44).add_defined(g2_pt(0, 3, 9, 49)),
        g2_pt(5, 72, 16, 44).sadd(g2_pt(0, 3, 9, 49)) == g2_pt(69, 33, 71, 86),
        sproject(g2_pt(69, 33, 71, 86)) == col_point(5),
{
    lemma_g2_add_at(
        (5, 72),
        (16, 44),
        (0, 3),
        (9, 49),
        (94, 5),
        (96, 32),
        39,
        57,
        (18, 95),
        (5, 31),
        (74, 7),
        (69, 33),
        (87, 29),
        (71, 86),
        (-1, 0, -1, -1, 101, 22, 54, -19, 12, 89),
        (-10, 3, 0, -1, -16, -18, 0, -1),
    );
    lemma_distort_at(69, 33, 71, 86, 96, 3, 22, 9);
}

proof fn lemma_sum_4_2()
    ensures
        g2_pt(5, 72, 16, 44).add_defined(g2_pt(38, 33, 61, 75)),
        g2_pt(5, 72, 16, 44).sadd(g2_pt(38, 33, 61, 75)) == g2_pt(57, 46, 17, 52),
        sproject(g2_pt(57, 46, 17, 52)) == col_point(6),
{
    lemma_g2_add_at(
        (5, 72),
        (16, 44),
        (38, 33),
        (61, 75),
        (45, 31),
        (33, 62),
        85,
        82,
        (80, 67),
        (8, 41),
        (100, 50),
        (57, 46),
        (33, 96),
        (17, 52),
        (0, 0, 0, -1, 48, 69, 26, -51, 15, 54),
        (-17, 6, 0, -1, -15, -20, 0, 0),
    );
    lemma_distort_at(57, 46, 17, 52, 12, 5, 32, 5);
}

proof fn lemma_sum_4_3()
    ensures
        g2_pt(5, 72, 16, 44).add_defined(g2_pt(19, 91, 88, 44)),
        g2_pt(5, 72, 16, 44).sadd(g2_pt(19, 91, 88, 44)) == g2_pt(81, 47, 93, 16),
        sproject(g2_pt(81, 47, 93, 16)) == col_point(7),
{
    lemma_g2_add_at(
        (5, 72),
        (16, 44),
        (19, 91),
        (88, 44),
        (72, 0),
        (14, 19),
        52,
        68,
        (43, 21),
        (66, 98),
        (4, 8),
        (81, 47),
        (8, 60),
        (93, 16),
        (0, 0, 0, 0, 5, 35, 9, -13, 30, 14),
        (-52, 128, -1, -2, -74, -58, -1, 0),
    );
    lemma_distort_at(81, 47, 93, 16, 46, 5, 51, 2);
}

proof fn lemma_sum_4_4()
    ensures
        g2_pt(5, 72, 16, 44).add_defined(g2_pt(5, 72, 16, 44)),
        g2_pt(5, 72, 16, 44).sadd(g2_pt(5, 72, 16, 44)) == g2_pt(18, 69, 94, 11),
        sproject(g2_pt(18, 69, 94, 11)) == col_point(8),
{
    lemma_g2_double_at(
        (5, 72),
        (16, 44),
        (93, 13),
        (77, 39),
        (32, 88),
        82,
        85,
        (94, 95),
        (99, 73),
        (28, 11),
        (18, 69),
        (9, 55),
        (94, 11),
        (-52, 7, 2, 0, 0, 0, 86, 69, 26, -75),
        (34, 108, 44, 143, 0, -2, -15, -7, -1, 0),
    );
    assert(g2_pt(5, 72, 16, 44).sadd(g2_pt(5, 72, 16, 44)) == g2_pt(5, 72, 16, 44).sdouble());
    lemma_distort_at(18, 69, 94, 11, 1, 7, 2, 2);
}

proof fn lemma_sum_4_5()
    ensures
        g2_pt(5, 72, 16, 44).add_defined(g2_pt(69, 33, 71, 86)),
        g2_pt(5, 72, 16, 44).sadd(g2_pt(69, 33, 71, 86)) == g2_pt(83, 80, 84, 22),
        sproject(g2_pt(83, 80, 84, 22)) == col_point(9),
{
    lemma_g2_add_at(
        (5, 72),
        (16, 44),
        (69, 33),
        (71, 86),
        (55, 42),
        (64, 62),
        62,
        44,
        (89, 100),
        (89, 47),
        (56, 84),
        (83, 80),
        (100, 66),
        (84, 22),
        (0, 0, 0, -1, 78, 27, 27, -28, 6, 91),
        (56, 82, -1, -1, -66, -44, 0, 0),
    );
    lemma_distort_at(83, 80, 84, 22, 75, 8, 1, 3);
}

proof fn lemma_sum_4_6()
    ensures
        g2_pt(5, 72, 16, 44).add_defined(g2_pt(57, 46, 17, 52)),
        g2_pt(5, 72, 16, 44).sadd(g2_pt(57, 46, 17, 52)) == g2_pt(65, 87, 47, 11),
        sproject(g2_pt(65, 87, 47, 11)) == col_point(10),
{
    lemma_g2_add_at(
        (5, 72),
        (16, 44),
        (57, 46),
        (17, 52),
        (1, 8),
        (52, 75),
        47,
        43,
        (14, 7),
        (59, 18),
        (26, 3),
        (65, 87),
        (63, 55),
        (47, 11),
        (0, 0, 0, -1, 82, 20, 22, -32, -1, 1),
        (31, 21, -1, -2, -33, -20, 0, 0),
    );
    lemma_distort_at(65, 87, 47, 11, 26, 9, 56, 1);
}

proof fn lemma_sum_4_7()
    ensures
        g2_pt(5, 72, 16, 44).add_defined(g2_pt(81, 47, 93, 16)),
        g2_pt(5, 72, 16, 44).sadd(g2_pt(81, 47, 93, 16)) == g2_pt(61, 30, 84, 76),
        sproject(g2_pt(61, 30, 84, 76)) == col_point(11),
{
    lemma_g2_add_at(
        (5, 72),
        (16, 44),
        (81, 47),
        (93, 16),
        (77, 73),
        (76, 76),
        38,
        8,
        (2, 99),
        (98, 93),
        (46, 48),
        (61, 30),
        (100, 19),
        (84, 76),
        (0, -1, 0, -1, 114, 3, 6, -7, -71, 76),
        (9, 180, -1, -1, -94, -11, 0, -1),
    );
    lemma_distort_at(61, 30, 84, 76, 58, 3, 36, 8);
}

proof fn lemma_sum_4_8()
    ensures
        g2_pt(5, 72, 16, 44).add_defined(g2_pt(18, 69, 94, 11)),
        g2_pt(5, 72, 16, 44).sadd(g2_pt(18, 69, 94, 11)) == g2_pt(29, 87, 70, 40),
        sproject(g2_pt(29, 87, 70, 40)) == col_point(12),
{
    lemma_g2_add_at(
        (5, 72),
        (16, 44),
        (18, 69),
        (94, 11),
        (78, 68),
        (13, 98),
        77,
        21,
        (71, 63),
        (42, 46),
        (52, 26),
        (29, 87),
        (86, 84),
        (70, 40),
        (0, -1, 0, -1, 96, 16, 2, -21, 12, 96),
        (-4, 38, 0, -2, -4, -18, 0, 0),
    );
    lemma_distort_at(29, 87, 70, 40, 91, 8, 66, 4);
}

proof fn lemma_sum_4_9()
    ensures
        g2_pt(5, 72, 16, 44).add_defined(g2_pt(83, 80, 84, 22)),
        g2_pt(5, 72, 16, 44).sadd(g2_pt(83, 80, 84, 22)) == g2_pt(4, 46, 3, 36),
        sproject(g2_pt(4, 46, 3, 36)) == col_point(13),
{
    lemma_g2_add_at(
        (5, 72),
        (16, 44),
        (83, 80),
        (84, 22),
        (68, 79),
        (78, 8),
        88,
        31,
        (95, 55),
        (95, 34),
        (92, 97),
        (4, 46),
        (19, 80),
        (3, 36),
        (0, -1, 0, 0, 60, 27, 23, -3, 20, 111),
        (77, 63, 0, -1, -8, 24, 0, 0),
    );
    lemma_distort_at(4, 46, 3, 36, 60, 4, 60, 3);
}

proof fn lemma_sum_4_10()
    ensures
        g2_pt(5, 72, 16, 44).add_defined(g2_pt(65, 87, 47, 11)),
        g2_pt(5, 72, 16, 44).sadd(g2_pt(65, 87, 47, 11)) == g2_pt(42, 100, 84, 16),
        sproject(g2_pt(42, 100, 84, 16)) == col_point(14),
{
    lemma_g2_add_at(
        (5, 72),
        (16, 44),
        (65, 87),
        (47, 11),
        (31, 68),
        (60, 15),
        88,
        31,
        (42, 40),
        (97, 56),
        (11, 57),
        (42, 100),
        (100, 60),
        (84, 16),
        (0, -1, 0, 0, 37, 27, 18, -5, -15, 40),
        (62, 107, -1, -2, -21, -48, 0, 0),
    );
    lemma_distort_at(42, 100, 84, 16, 32, 10, 42, 2);
}

proof fn lemma_sum_4_11()
    ensures
        g2_pt(5, 72, 16, 44).add_defined(g2_pt(61, 30, 84, 76)),
        g2_pt(5, 72, 16, 44).sadd(g2_pt(61, 30, 84, 76)) == g2_pt(71, 14, 32, 68),
        sproject(g2_pt(71, 14, 32, 68)) == col_point(15),
{
    lemma_g2_add_at(
        (5, 72),
        (16, 44),
        (61, 30),
        (84, 76),
        (68, 32),
        (56, 59),
        52,
        68,
        (71, 28),
        (94, 35),
        (36, 15),
        (71, 14),
        (48, 11),
        (32, 68),
        (0, 0, 0, -1, 65, 35, 37, -40, 38, 41),
        (75, 65, -1, -1, -82, 31, 0, -1),
    );
    lemma_distort_at(71, 14, 32, 68, 9, 2, 5, 7);
}

proof fn lemma_sum_4_12()
    ensures
        g2_pt(5, 72, 16, 44).add_defined(g2_pt(29, 87, 70, 40)),
        g2_pt(5, 72, 16, 44).sadd(g2_pt(29, 87, 70, 40)) == g2_pt(93, 48, 94, 99),
        sproject(g2_pt(93, 48, 94, 99)) == col_point(16),
{
    lemma_g2_add_at(
        (5, 72),
        (16, 44),
        (29, 87),
        (70, 40),
        (54, 97),
        (24, 15),
        94,
        72,
        (11, 31),
        (11, 14),
        (26, 5),
        (93, 48),
        (9, 42),
        (94, 99),
        (0, -1, 0, 0, 7, 67, 17, -11, -24, 27),
        (-1, 3, -1, -2, -13, -10, -1, -1),
    );
    lemma_distort_at(93, 48, 94, 99, 68, 5, 74, 10);
}

proof fn lemma_sum_4_13()
    ensures
        g2_pt(5, 72, 16, 44).add_defined(g2_pt(4, 46, 3, 36)),
        g2_pt(5, 72, 16, 44).sadd(g2_pt(4, 46, 3, 36)) == g2_pt(88, 97, 86, 52),
        sproject(g2_pt(88, 97, 86, 52)) == col_point(17),
{
    lemma_g2_add_at(
        (5, 72),
        (16, 44),
        (4, 46),
        (3, 36),
        (88, 93),
        (100, 75),
        71,
        37,
        (64, 53),
        (97, 11),
        (97, 13),
        (88, 97),
        (1, 96),
        (86, 52),
        (-1, -1, -1, -1, 154, 26, 36, -28, 6, 105),
        (91, 21, 0, -2, -77, -34, -1, 0),
    );
    lemma_distort_at(88, 97, 86, 52, 48, 10, 0, 6);
}

proof fn lemma_sum_4_14()
    ensures
        g2_pt(5, 72, 16, 44).add_defined(g2_pt(42, 100, 84, 16)),
        g2_pt(5, 72, 16, 44).sadd(g2_pt(42, 100, 84, 16)) == g2_pt(47, 93, 36, 90),
        sproject(g2_pt(47, 93, 36, 90)) == col_point(18),
{
    lemma_g2_add_at(
        (5, 72),
        (16, 44),
        (42, 100),
        (84, 16),
        (68, 73),
        (37, 28),
        32,
        60,
        (99, 37),
        (92, 47),
        (94, 63),
        (47, 93),
        (52, 33),
        (36, 90),
        (0, -1, 0, 0, 21, 19, 21, -17, 39, 96),
        (61, 85, 0, -2, -29, -39, 0, -1),
    );
    lemma_distort_at(47, 93, 36, 90, 68, 9, 27, 9);
}

proof fn lemma_sum_4_15()
    ensures
        g2_pt(5, 72, 16, 44).add_defined(g2_pt(71, 14, 32, 68)),
        g2_pt(5, 72, 16, 44).sadd(g2_pt(71, 14, 32, 68)) == g2_pt(91, 12, 80, 42),
        sproject(g2_pt(91, 12, 80, 42)) == col_point(19),
{
    lemma_g2_add_at(
        (5, 72),
        (16, 44),
        (71, 14),
        (32, 68),
        (16, 24),
        (66, 43),
        44,
        62,
        (52, 61),
        (75, 2),
        (66, 98),
        (91, 12),
        (96, 86),
        (80, 42),
        (0, 0, 0, -1, 61, 27, 40, -27, -7, 22),
        (55, 2, -1, 0, -66, 42, 0, 0),
    );
    lemma_distort_at(91, 12, 80, 42, 9, 2, 96, 4);
}

proof fn lemma_sum_4_16()
    ensures
        g2_pt(5, 72, 16, 44).add_defined(g2_pt(93, 48, 94, 99)),
        g2_pt(5, 72, 16, 44).sadd(g2_pt(93, 48, 94, 99)) == g2_pt(88, 55, 22, 34),
        sproject(g2_pt(88, 55, 22, 34)) == col_point(20),
{
    lemma_g2_add_at(
        (5, 72),
        (16, 44),
        (93, 48),
        (94, 99),
        (78, 55),
        (88, 77),
        38,
        8,
        (98, 91),
        (13, 65),
        (85, 74),
        (88, 55),
        (38, 78),
        (22, 34),
        (0, 0, 0, -1, 135, 3, 6, -7, 26, 123),
        (-41, 16, -1, -1, -22, -52, 0, 0),
    );
    lemma_distort_at(88, 55, 22, 34, 32, 6, 59, 3);
}

proof fn lemma_sum_5_1()
    ensures
        g2_pt(69, 33, 71, 86).add_defined(g2_pt(0, 3, 9, 49)),
        g2_pt(69, 33, 71, 86).sadd(g2_pt(0, 3, 9, 49)) == g2_pt(57, 46, 17, 52),
        sproject(g2_pt(57, 46, 17, 52)) == col_point(6),
{
    lemma_g2_add_at(
        (69, 33),
        (71, 86),
        (0, 3),
        (9, 49),
        (39, 64),
        (32, 71),
        5,
        81,
        (67, 6),
        (7, 78),
        (25, 82),
        (57, 46),
        (88, 37),
        (17, 52),
        (-1, -1, -1, -1, 60, 4, 25, -57, 22, 44),
        (-60, 10, -1, 0, 10, 8, 0, -1),
    );
    lemma_distort_at(57, 46, 17, 52, 12, 5, 32, 5);
}

proof fn lemma_sum_5_2()
    ensures
        g2_pt(69, 33, 71, 86).add_defined(g2_pt(38, 33, 61, 75)),
        g2_pt(69, 33, 71, 86).sadd(g2_pt(38, 33, 61, 75)) == g2_pt(81, 47, 93, 16),
        sproject(g2_pt(81, 47, 93, 16)) == col_point(7),
{
    lemma_g2_add_at(
        (69, 33),
        (71, 86),
        (38, 33),
        (61, 75),
        (91, 90),
        (70, 0),
        52,
        68,
        (13, 0),
        (72, 59),
        (87, 12),
        (81, 47),
        (63, 1),
        (93, 16),
        (-1, -1, -1, 0, 48, 35, 47, 0, 11, 11),
        (16, 84, -1, -1, -1, -17, -1, -1),
    );
    lemma_distort_at(81, 47, 93, 16, 46, 5, 51, 2);
}

proof fn lemma_sum_5_3()
    ensures
        g2_pt(69, 33, 71, 86).add_defined(g2_pt(19, 91, 88, 44)),
        g2_pt(69, 33, 71, 86).sadd(g2_pt(19, 91, 88, 44)) == g2_pt(18, 69, 94, 11),
        sproject(g2_pt(18, 69, 94, 11)) == col_point(8),
{
    lemma_g2_add_at(
        (69, 33),
        (71, 86),
        (19, 91),
        (88, 44),
        (17, 59),
        (51, 58),
        6,
        17,
        (59, 24),
        (92, 51),
        (5, 92),
        (18, 69),
        (64, 97),
        (94, 11),
        (0, -1, -1, 0, 59, 1, 8, -10, -5, 38),
        (58, 92, -1, -1, 64, -8, -1, 0),
    );
    lemma_distort_at(18, 69, 94, 11, 1, 7, 2, 2);
}

proof fn lemma_sum_5_4()
    ensures
        g2_pt(69, 33, 71, 86).add_defined(g2_pt(5, 72, 16, 44)),
        g2_pt(69, 33, 71, 86).sadd(g2_pt(5, 72, 16, 44)) == g2_pt(83, 80, 84, 22),
        sproject(g2_pt(83, 80, 84, 22)) == col_point(9),
{
    lemma_g2_add_at(
        (69, 33),
        (71, 86),
        (5, 72),
        (16, 44),
        (46, 59),
        (37, 39),
        62,
        44,
        (12, 1),
        (89, 47),
        (56, 84),
        (83, 80),
        (54, 7),
        (84, 22),
        (-1, -1, -1, 0, 28, 27, 16, -17, 4, 7),
        (56, 82, -1, -1, 9, -48, -1, -1),
    );
    lemma_distort_at(83, 80, 84, 22, 75, 8, 1, 3);
}

proof fn lemma_sum_5_5()
    ensures
        g2_pt(69, 33, 71, 86).add_defined(g2_pt(69, 33, 71, 86)),
        g2_pt(69, 33, 71, 86).sadd(g2_pt(69, 33, 71, 86)) == g2_pt(65, 87, 47, 11),
        sproject(g2_pt(65, 87, 47, 11)) == col_point(10),
{
    lemma_g2_double_at(
        (69, 33),
        (71, 86),
        (36, 9),
        (7, 27),
        (41, 71),
        56,
        92,
        (35, 33),
        (61, 65),
        (1, 52),
        (65, 87),
        (17, 97),
        (47, 11),
        (36, 45, 1, 0, 1, 1, 66, 51, 37, -65),
        (-7, 11, -5, 78, -2, -1, 37, -31, -1, 0),
    );
    assert(g2_pt(69, 33, 71, 86).sadd(g2_pt(69, 33, 71, 86)) == g2_pt(69, 33, 71, 86).sdouble());
    lemma_distort_at(65, 87, 47, 11, 26, 9, 56, 1);
}

proof fn lemma_sum_5_6()
    ensures
        g2_pt(69, 33, 71, 86).add_defined(g2_pt(57, 46, 17, 52)),
        g2_pt(69, 33, 71, 86).sadd(g2_pt(57, 46, 17, 52)) == g2_pt(61, 30, 84, 76),
        sproject(g2_pt(61, 30, 84, 76)) == col_point(11),
{
    lemma_g2_add_at(
        (69, 33),
        (71, 86),
        (57, 46),
        (17, 52),
        (47, 67),
        (89, 13),
        10,
        91,
        (19, 29),
        (61, 10),
        (86, 8),
        (61, 30),
        (54, 61),
        (84, 76),
        (-1, -1, -1, 0, 80, 9, 80, -12, -11, 26),
        (35, 12, -1, -1, 4, 2, -1, -1),
    );
    lemma_distort_at(61, 30, 84, 76, 58, 3, 36, 8);
}

proof fn lemma_sum_5_7()
    ensures
        g2_pt(69, 33, 71, 86).add_defined(g2_pt(81, 47, 93, 16)),
        g2_pt(69, 33, 71, 86).sadd(g2_pt(81, 47, 93, 16)) == g2_pt(29, 87, 70, 40),
        sproject(g2_pt(29, 87, 70, 40)) == col_point(12),
{
    lemma_g2_add_at(
        (69, 33),
        (71, 86),
        (81, 47),
        (93, 16),
        (22, 31),
        (12, 14),
        37,
        71,
        (44, 16),
        (68, 100),
        (78, 66),
        (29, 87),
        (40, 25),
        (70, 40),
        (0, -1, 0, 0, 3, 26, 8, -10, 4, 16),
        (-54, 134, -1, -1, 80, 3, -1, -1),
    );
    lemma_distort_at(29, 87, 70, 40, 91, 8, 66, 4);
}

proof fn lemma_sum_5_8()
    ensures
        g2_pt(69, 33, 71, 86).add_defined(g2_pt(18, 69, 94, 11)),
        g2_pt(69, 33, 71, 86).sadd(g2_pt(18, 69, 94, 11)) == g2_pt(4, 46, 3, 36),
        sproject(g2_pt(4, 46, 3, 36)) == col_point(13),
{
    lemma_g2_add_at(
        (69, 33),
        (71, 86),
        (18, 69),
        (94, 11),
        (23, 26),
        (50, 36),
        59,
        12,
        (95, 73),
        (85, 8),
        (91, 47),
        (4, 46),
        (74, 21),
        (3, 36),
        (0, -1, -1, 0, 37, 7, 5, -5, 2, 41),
        (70, 13, 0, -1, 55, -6, 0, -1),
    );
    lemma_distort_at(4, 46, 3, 36, 60, 4, 60, 3);
}

proof fn lemma_sum_5_9()
    ensures
        g2_pt(69, 33, 71, 86).add_defined(g2_pt(83, 80, 84, 22)),
        g2_pt(69, 33, 71, 86).sadd(g2_pt(83, 80, 84, 22)) == g2_pt(42, 100, 84, 16),
        sproject(g2_pt(42, 100, 84, 16)) == col_point(14),
{
    lemma_g2_add_at(
        (69, 33),
        (71, 86),
        (83, 80),
        (84, 22),
        (13, 37),
        (14, 47),
        82,
        85,
        (79, 45),
        (69, 74),
        (93, 11),
        (42, 100),
        (54, 1),
        (84, 16),
        (0, -1, 0, 0, 23, 69, 11, -40, -7, 34),
        (-8, 101, -1, -2, 67, -26, -1, -1),
    );
    lemma_distort_at(42, 100, 84, 16, 32, 10, 42, 2);
}

proof fn lemma_sum_5_10()
    ensures
        g2_pt(69, 33, 71, 86).add_defined(g2_pt(65, 87, 47, 11)),
        g2_pt(69, 33, 71, 86).sadd(g2_pt(65, 87, 47, 11)) == g2_pt(71, 14, 32, 68),
        sproject(g2_pt(71, 14, 32, 68)) == col_point(15),
{
    lemma_g2_add_at(
        (69, 33),
        (71, 86),
        (65, 87),
        (47, 11),
        (77, 26),
        (97, 54),
        3,
        34,
        (66, 83),
        (96, 27),
        (3, 33),
        (71, 14),
        (2, 53),
        (32, 68),
        (-1, -1, -1, 0, 122, 1, 32, -19, 28, 80),
        (84, 51, -2, -1, -7, 17, -1, -1),
    );
    lemma_distort_at(71, 14, 32, 68, 9, 2, 5, 7);
}

proof fn lemma_sum_5_11()
    ensures
        g2_pt(69, 33, 71, 86).add_defined(g2_pt(61, 30, 84, 76)),
        g2_pt(69, 33, 71, 86).sadd(g2_pt(61, 30, 84, 76)) == g2_pt(93, 48, 94, 99),
        sproject(g2_pt(93, 48, 94, 99)) == col_point(16),
{
    lemma_g2_add_at(
        (69, 33),
        (71, 86),
        (61, 30),
        (84, 76),
        (13, 91),
        (93, 98),
        73,
        18,
        (58, 54),
        (82, 21),
        (21, 10),
        (93, 48),
        (64, 84),
        (94, 99),
        (0, -1, -1, -1, 180, 13, 16, -18, -42, 59),
        (62, 34, -2, -1, -17, -18, -1, -1),
    );
    lemma_distort_at(93, 48, 94, 99, 68, 5, 74, 10);
}

proof fn lemma_sum_5_12()
    ensures
        g2_pt(69, 33, 71, 86).add_defined(g2_pt(29, 87, 70, 40)),
        g2_pt(69, 33, 71, 86).sadd(g2_pt(29, 87, 70, 40)) == g2_pt(88, 97, 86, 52),
        sproject(g2_pt(88, 97, 86, 52)) == col_point(17),
{
    lemma_g2_add_at(
        (69, 33),
        (71, 86),
        (29, 87),
        (70, 40),
        (100, 55),
        (61, 54),
        72,
        94,
        (78, 75),
        (39, 74),
        (85, 15),
        (88, 97),
        (56, 37),
        (86, 52),
        (-1, -1, -1, 0, 65, 67, 56, -51, 36, 116),
        (-40, 57, -1, -2, 39, -39, -1, -1),
    );
    lemma_distort_at(88, 97, 86, 52, 48, 10, 0, 6);
}

proof fn lemma_sum_5_13()
    ensures
        g2_pt(69, 33, 71, 86).add_defined(g2_pt(4, 46, 3, 36)),
        g2_pt(69, 33, 71, 86).sadd(g2_pt(4, 46, 3, 36)) == g2_pt(47, 93, 36, 90),
        sproject(g2_pt(47, 93, 36, 90)) == col_point(18),
{
    lemma_g2_add_at(
        (69, 33),
        (71, 86),
        (4, 46),
        (3, 36),
        (33, 51),
        (36, 13),
        51,
        2,
        (72, 75),
        (66, 87),
        (19, 71),
        (47, 93),
        (6, 75),
        (36, 90),
        (-1, -1, -1, 0, 14, 1, 0, -1, -15, 60),
        (-32, 113, -1, -1, 66, -21, -1, -1),
    );
    lemma_distort_at(47, 93, 36, 90, 68, 9, 27, 9);
}

proof fn lemma_sum_5_14()
    ensures
        g2_pt(69, 33, 71, 86).add_defined(g2_pt(42, 100, 84, 16)),
        g2_pt(69, 33, 71, 86).sadd(g2_pt(42, 100, 84, 16)) == g2_pt(91, 12, 80, 42),
        sproject(g2_pt(91, 12, 80, 42)) == col_point(19),
{
    lemma_g2_add_at(
        (69, 33),
        (71, 86),
        (42, 100),
        (84, 16),
        (13, 31),
        (74, 67),
        67,
        98,
        (81, 100),
        (74, 74),
        (0, 44),
        (91, 12),
        (50, 27),
        (80, 42),
        (0, -1, -1, 0, 98, 65, 71, -66, -21, 37),
        (0, 108, -2, -1, -32, -1, -1, -1),
    );
    lemma_distort_at(91, 12, 80, 42, 9, 2, 96, 4);
}

proof fn lemma_sum_5_15()
    ensures
        g2_pt(69, 33, 71, 86).add_defined(g2_pt(71, 14, 32, 68)),
        g2_pt(69, 33, 71, 86).sadd(g2_pt(71, 14, 32, 68)) == g2_pt(88, 55, 22, 34),
        sproject(g2_pt(88, 55, 22, 34)) == col_point(20),
{
    lemma_g2_add_at(
        (69, 33),
        (71, 86),
        (71, 14),
        (32, 68),
        (62, 83),
        (2, 82),
        62,
        44,
        (88, 28),
        (1, 51),
        (26, 1),
        (88, 55),
        (93, 19),
        (22, 34),
        (-1, -1, 0, -1, 66, 27, 0, -36, 31, 89),
        (-26, 1, -2, -1, 10, -10, 0, -1),
    );
    lemma_distort_at(88, 55, 22, 34, 32, 6, 59, 3);
}

proof fn lemma_sum_5_16()
    ensures
        g2_pt(69, 33, 71, 86).add_defined(g2_pt(93, 48, 94, 99)),
        g2_pt(69, 33, 71, 86).sadd(g2_pt(93, 48, 94, 99)) == g2_pt(36, 63, 55, 39),
        sproject(g2_pt(36, 63, 55, 39)) == col_point(21),
{
    lemma_g2_add_at(
        (69, 33),
        (71, 86),
        (93, 48),
        (94, 99),
        (23, 13),
        (24, 15),
        94,
        72,
        (11, 31),
        (52, 48),
        (97, 43),
        (36, 63),
        (25, 24),
        (55, 39),
        (0, 0, 0, 0, 7, 67, 17, -11, -2, 8),
        (3, 49, -1, -1, 31, 0, -1, -1),
    );
    lemma_distort_at(36, 63, 55, 39, 60, 6, 41, 4);
}

proof fn lemma_sum_6_1()
    ensures
        g2_pt(57, 46, 17, 52).add_defined(g2_pt(0, 3, 9, 49)),
        g2_pt(57, 46, 17, 52).sadd(g2_pt(0, 3, 9, 49)) == g2_pt(81, 47, 93, 16),
        sproject(g2_pt(81, 47, 93, 16)) == col_point(7),
{
    lemma_g2_add_at(
        (57, 46),
        (17, 52),
        (0, 3),
        (9, 49),
        (93, 98),
        (44, 58),
        48,
        40,
        (43, 3),
        (69, 49),
        (37, 96),
        (81, 47),
        (9, 68),
        (93, 16),
        (-1, -1, -1, -1, 52, 19, 17, -23, 36, 44),
        (23, 66, -1, 0, -16, -13, -1, 0),
    );
    lemma_distort_at(81, 47, 93, 16, 46, 5, 51, 2);
}

proof fn lemma_sum_6_2()
    ensures
        g2_pt(57, 46, 17, 52).add_defined(g2_pt(38, 33, 61, 75)),
        g2_pt(57, 46, 17, 52).sadd(g2_pt(38, 33, 61, 75)) == g2_pt(18, 69, 94, 11),
        sproject(g2_pt(18, 69, 94, 11)) == col_point(8),
{
    lemma_g2_add_at(
        (57, 46),
        (17, 52),
        (38, 33),
        (61, 75),
        (44, 23),
        (82, 88),
        25,
        97,
        (76, 49),
        (96, 66),
        (12, 47),
        (18, 69),
        (10, 63),
        (94, 11),
        (0, 0, -1, -1, 143, 24, 78, -85, 21, 38),
        (48, 125, -1, -1, 52, 3, -1, 0),
    );
    lemma_distort_at(18, 69, 94, 11, 1, 7, 2, 2);
}

proof fn lemma_sum_6_3()
    ensures
        g2_pt(57, 46, 17, 52).add_defined(g2_pt(19, 91, 88, 44)),
        g2_pt(57, 46, 17, 52).sadd(g2_pt(19, 91, 88, 44)) == g2_pt(83, 80, 84, 22),
        sproject(g2_pt(83, 80, 84, 22)) == col_point(9),
{
    lemma_g2_add_at(
        (57, 46),
        (17, 52),
        (19, 91),
        (88, 44),
        (71, 93),
        (63, 45),
        35,
        26,
        (22, 42),
        (80, 79),
        (58, 15),
        (83, 80),
        (0, 74),
        (84, 22),
        (0, -1, -1, 0, 59, 9, 16, -12, -24, 49),
        (1, 125, -1, -2, 6, -48, -1, 0),
    );
    lemma_distort_at(83, 80, 84, 22, 75, 8, 1, 3);
}

proof fn lemma_sum_6_4()
    ensures
        g2_pt(57, 46, 17, 52).add_defined(g2_pt(5, 72, 16, 44)),
        g2_pt(57, 46, 17, 52).sadd(g2_pt(5, 72, 16, 44)) == g2_pt(65, 87, 47, 11),
        sproject(g2_pt(65, 87, 47, 11)) == col_point(10),
{
    lemma_g2_add_at(
        (57, 46),
        (17, 52),
        (5, 72),
        (16, 44),
        (100, 93),
        (49, 26),
        47,
        43,
        (87, 94),
        (59, 18),
        (26, 3),
        (65, 87),
        (64, 63),
        (47, 11),
        (-1, -1, -1, 0, 30, 20, 20, -12, -1, 173),
        (31, 21, -1, -2, 2, -26, 0, 0),
    );
    lemma_distort_at(65, 87, 47, 11, 26, 9, 56, 1);
}

proof fn lemma_sum_6_5()
    ensures
        g2_pt(57, 46, 17, 52).add_defined(g2_pt(69, 33, 71, 86)),
        g2_pt(57, 46, 17, 52).sadd(g2_pt(69, 33, 71, 86)) == g2_pt(61, 30, 84, 76),
        sproject(g2_pt(61, 30, 84, 76)) == col_point(11),
{
    lemma_g2_add_at(
        (57, 46),
        (17, 52),
        (69, 33),
        (71, 86),
        (54, 34),
        (12, 88),
        10,
        91,
        (82, 72),
        (61, 10),
        (86, 8),
        (61, 30),
        (0, 27),
        (84, 76),
        (0, 0, 0, -1, 78, 9, 10, -80, 19, 66),
        (35, 12, -1, -1, -4, 9, -1, -1),
    );
    lemma_distort_at(61, 30, 84, 76, 58, 3, 36, 8);
}

proof fn lemma_sum_6_6()
    ensures
        g2_pt(57, 46, 17, 52).add_defined(g2_pt(57, 46, 17, 52)),
        g2_pt(57, 46, 17, 52).sadd(g2_pt(57, 46, 17, 52)) == g2_pt(29, 87, 70, 40),
        sproject(g2_pt(29, 87, 70, 40)) == col_point(12),
{
    lemma_g2_double_at(
        (57, 46),
        (17, 52),
        (22, 93),
        (66, 77),
        (34, 3),
        54,
        58,
        (53, 28),
        (29, 71),
        (42, 78),
        (29, 87),
        (87, 92),
        (70, 40),
        (11, 51, 0, 2, 0, 1, 11, 31, 19, -2),
        (13, 58, -42, 40, -1, -1, 36, 7, 0, 0),
    );
    assert(g2_pt(57, 46, 17, 52).sadd(g2_pt(57, 46, 17, 52)) == g2_pt(57, 46, 17, 52).sdouble());
    lemma_distort_at(29, 87, 70, 40, 91, 8, 66, 4);
}

proof fn lemma_sum_6_7()
    ensures
        g2_pt(57, 46, 17, 52).add_defined(g2_pt(81, 47, 93, 16)),
        g2_pt(57, 46, 17, 52).sadd(g2_pt(81, 47, 93, 16)) == g2_pt(4, 46, 3, 36),
        sproject(g2_pt(4, 46, 3, 36)) == col_point(13),
{
    lemma_g2_add_at(
        (57, 46),
        (17, 52),
        (81, 47),
        (93, 16),
        (76, 65),
        (24, 1),
        72,
        94,
        (34, 7),
        (8, 15),
        (41, 38),
        (4, 46),
        (20, 88),
        (3, 36),
        (0, -1, 0, 0, 5, 67, 22, -1, 21, 27),
        (-2, 2, -1, -1, 4, 7, 0, 0),
    );
    lemma_distort_at(4, 46, 3, 36, 60, 4, 60, 3);
}

proof fn lemma_sum_6_8()
    ensures
        g2_pt(57, 46, 17, 52).add_defined(g2_pt(18, 69, 94, 11)),
        g2_pt(57, 46, 17, 52).sadd(g2_pt(18, 69, 94, 11)) == g2_pt(42, 100, 84, 16),
        sproject(g2_pt(42, 100, 84, 16)) == col_point(14),
{
    lemma_g2_add_at(
        (57, 46),
        (17, 52),
        (18, 69),
        (94, 11),
        (77, 60),
        (62, 23),
        30,
        64,
        (29, 43),
        (57, 1),
        (16, 13),
        (42, 100),
        (0, 68),
        (84, 16),
        (0, -1, -1, 0, 43, 19, 39, -15, -4, 50),
        (32, 1, -1, -2, 9, -31, -1, 0),
    );
    lemma_distort_at(42, 100, 84, 16, 32, 10, 42, 2);
}

proof fn lemma_sum_6_9()
    ensures
        g2_pt(57, 46, 17, 52).add_defined(g2_pt(83, 80, 84, 22)),
        g2_pt(57, 46, 17, 52).sadd(g2_pt(83, 80, 84, 22)) == g2_pt(71, 14, 32, 68),
        sproject(g2_pt(71, 14, 32, 68)) == col_point(15),
{
    lemma_g2_add_at(
        (57, 46),
        (17, 52),
        (83, 80),
        (84, 22),
        (67, 71),
        (26, 34),
        14,
        65,
        (74, 12),
        (66, 99),
        (9, 39),
        (71, 14),
        (49, 19),
        (32, 68),
        (0, -1, 0, 0, 18, 9, 16, -22, 40, 59),
        (-54, 129, -2, -1, -41, 7, 0, -1),
    );
    lemma_distort_at(71, 14, 32, 68, 9, 2, 5, 7);
}

proof fn lemma_sum_6_10()
    ensures
        g2_pt(57, 46, 17, 52).add_defined(g2_pt(65, 87, 47, 11)),
        g2_pt(57, 46, 17, 52).sadd(g2_pt(65, 87, 47, 11)) == g2_pt(93, 48, 94, 99),
        sproject(g2_pt(93, 48, 94, 99)) == col_point(16),
{
    lemma_g2_add_at(
        (57, 46),
        (17, 52),
        (65, 87),
        (47, 11),
        (30, 60),
        (8, 41),
        28,
        83,
        (58, 31),
        (82, 67),
        (13, 80),
        (93, 48),
        (10, 50),
        (94, 99),
        (0, -1, 0, 0, 17, 23, 6, -34, -2, 43),
        (22, 108, -2, -1, -28, -26, -1, -1),
    );
    lemma_distort_at(93, 48, 94, 99, 68, 5, 74, 10);
}

proof fn lemma_sum_6_11()
    ensures
        g2_pt(57, 46, 17, 52).add_defined(g2_pt(61, 30, 84, 76)),
        g2_pt(57, 46, 17, 52).sadd(g2_pt(61, 30, 84, 76)) == g2_pt(88, 97, 86, 52),
        sproject(g2_pt(88, 97, 86, 52)) == col_point(17),
{
    lemma_g2_add_at(
        (57, 46),
        (17, 52),
        (61, 30),
        (84, 76),
        (67, 24),
        (4, 85),
        70,
        13,
        (52, 6),
        (7, 34),
        (4, 72),
        (88, 97),
        (2, 3),
        (86, 52),
        (0, 0, 0, -1, 71, 9, 0, -11, 33, 16),
        (-11, 4, -2, -1, 15, -14, -1, -1),
    );
    lemma_distort_at(88, 97, 86, 52, 48, 10, 0, 6);
}

proof fn lemma_sum_6_12()
    ensures
        g2_pt(57, 46, 17, 52).add_defined(g2_pt(29, 87, 70, 40)),
        g2_pt(57, 46, 17, 52).sadd(g2_pt(29, 87, 70, 40)) == g2_pt(47, 93, 36, 90),
        sproject(g2_pt(47, 93, 36, 90)) == col_point(18),
{
    lemma_g2_add_at(
        (57, 46),
        (17, 52),
        (29, 87),
        (70, 40),
        (53, 89),
        (73, 41),
        41,
        69,
        (88, 100),
        (6, 2),
        (32, 24),
        (47, 93),
        (53, 41),
        (36, 90),
        (0, -1, -1, 0, 69, 28, 49, -29, -42, 130),
        (0, 0, -1, -2, 1, -3, 0, -1),
    );
    lemma_distort_at(47, 93, 36, 90, 68, 9, 27, 9);
}

proof fn lemma_sum_6_13()
    ensures
        g2_pt(57, 46, 17, 52).add_defined(g2_pt(4, 46, 3, 36)),
        g2_pt(57, 46, 17, 52).sadd(g2_pt(4, 46, 3, 36)) == g2_pt(91, 12, 80, 42),
        sproject(g2_pt(91, 12, 80, 42)) == col_point(19),
{
    lemma_g2_add_at(
        (57, 46),
        (17, 52),
        (4, 46),
        (3, 36),
        (87, 85),
        (48, 0),
        82,
        85,
        (40, 0),
        (46, 67),
        (51, 3),
        (91, 12),
        (97, 94),
        (80, 42),
        (-1, -1, -1, 0, 22, 69, 40, 0, 34, 33),
        (-24, 61, -1, -1, -39, -8, 0, 0),
    );
    lemma_distort_at(91, 12, 80, 42, 9, 2, 96, 4);
}

proof fn lemma_sum_6_14()
    ensures
        g2_pt(57, 46, 17, 52).add_defined(g2_pt(42, 100, 84, 16)),
        g2_pt(57, 46, 17, 52).sadd(g2_pt(42, 100, 84, 16)) == g2_pt(88, 55, 22, 34),
        sproject(g2_pt(88, 55, 22, 34)) == col_point(20),
{
    lemma_g2_add_at(
        (57, 46),
        (17, 52),
        (42, 100),
        (84, 16),
        (67, 65),
        (86, 54),
        10,
        91,
        (49, 35),
        (99, 76),
        (86, 100),
        (88, 55),
        (39, 86),
        (22, 34),
        (0, -1, -1, 0, 102, 9, 77, -49, 9, 54),
        (39, 148, -1, -1, -24, -33, 0, 0),
    );
    lemma_distort_at(88, 55, 22, 34, 32, 6, 59, 3);
}

proof fn lemma_sum_6_15()
    ensures
        g2_pt(57, 46, 17, 52).add_defined(g2_pt(71, 14, 32, 68)),
        g2_pt(57, 46, 17, 52).sadd(g2_pt(71, 14, 32, 68)) == g2_pt(36, 63, 55, 39),
        sproject(g2_pt(36, 63, 55, 39)) == col_point(21),
{
    lemma_g2_add_at(
        (57, 46),
        (17, 52),
        (71, 14),
        (32, 68),
        (15, 16),
        (14, 69),
        8,
        38,
        (27, 4),
        (38, 88),
        (63, 22),
        (36, 63),
        (72, 91),
        (55, 39),
        (0, 0, 0, -1, 49, 3, 5, -26, 3, 4),
        (-63, 66, -1, -1, 22, 11, 0, 0),
    );
    lemma_distort_at(36, 63, 55, 39, 60, 6, 41, 4);
}

proof fn lemma_sum_6_16()
    ensures
        g2_pt(57, 46, 17, 52).add_defined(g2_pt(93, 48, 94, 99)),
        g2_pt(57, 46, 17, 52).sadd(g2_pt(93, 48, 94, 99)) == g2_pt(61, 3, 63, 78),
        sproject(g2_pt(61, 3, 63, 78)) == col_point(22),
{
    lemma_g2_add_at(
        (57, 46),
        (17, 52),
        (93, 48),
        (94, 99),
        (77, 47),
        (36, 2),
        88,
        31,
        (5, 39),
        (67, 6),
        (9, 97),
        (61, 3),
        (80, 29),
        (63, 78),
        (0, 0, 0, 0, 12, 27, 11, -1, -15, 32),
        (44, 7, -2, 0, -6, 28, 0, -1),
    );
    lemma_distort_at(61, 3, 63, 78, 91, 0, 35, 8);
}

proof fn lemma_sum_7_1()
    ensures
        g2_pt(81, 47, 93, 16).add_defined(g2_pt(0, 3, 9, 49)),
        g2_pt(81, 47, 93, 16).sadd(g2_pt(0, 3, 9, 49)) == g2_pt(18, 69, 94, 11),
        sproject(g2_pt(18, 69, 94, 11)) == col_point(8),
{
    lemma_g2_add_at(
        (81, 47),
        (93, 16),
        (0, 3),
        (9, 49),
        (17, 33),
        (20, 57),
        13,
        70,
        (87, 50),
        (31, 85),
        (99, 18),
        (18, 69),
        (86, 27),
        (94, 11),
        (-1, 0, -1, -1, 36, 9, 13, -40, -2, 36),
        (-63, 52, 0, -1, 37, 46, -1, 0),
    );
    lemma_distort_at(18, 69, 94, 11, 1, 7, 2, 2);
}

proof fn lemma_sum_7_2()
    ensures
        g2_pt(81, 47, 93, 16).add_defined(g2_pt(38, 33, 61, 75)),
        g2_pt(81, 47, 93, 16).sadd(g2_pt(38, 33, 61, 75)) == g2_pt(83, 80, 84, 22),
        sproject(g2_pt(83, 80, 84, 22)) == col_point(9),
{
    lemma_g2_add_at(
        (81, 47),
        (93, 16),
        (38, 33),
        (61, 75),
        (69, 59),
        (58, 87),
        25,
        97,
        (71, 45),
        (22, 22),
        (0, 59),
        (83, 80),
        (76, 38),
        (84, 22),
        (-1, 0, -1, -1, 108, 24, 55, -84, 22, 72),
        (0, 9, -2, -1, 6, -8, -1, 0),
    );
    lemma_distort_at(83, 80, 84, 22, 75, 8, 1, 3);
}

proof fn lemma_sum_7_3()
    ensures
        g2_pt(81, 47, 93, 16).add_defined(g2_pt(19, 91, 88, 44)),
        g2_pt(81, 47, 93, 16).sadd(g2_pt(19, 91, 88, 44)) == g2_pt(65, 87, 47, 11),
        sproject(g2_pt(65, 87, 47, 11)) == col_point(10),
{
    lemma_g2_add_at(
        (81, 47),
        (93, 16),
        (19, 91),
        (88, 44),
        (96, 28),
        (39, 44),
        23,
        22,
        (50, 42),
        (89, 79),
        (64, 23),
        (65, 87),
        (39, 27),
        (47, 11),
        (-1, 0, -1, 0, 34, 5, 8, -10, 35, 53),
        (16, 139, -1, -2, 45, -23, -1, 0),
    );
    lemma_distort_at(65, 87, 47, 11, 26, 9, 56, 1);
}

proof fn lemma_sum_7_4()
    ensures
        g2_pt(81, 47, 93, 16).add_defined(g2_pt(5, 72, 16, 44)),
        g2_pt(81, 47, 93, 16).sadd(g2_pt(5, 72, 16, 44)) == g2_pt(61, 30, 84, 76),
        sproject(g2_pt(61, 30, 84, 76)) == col_point(11),
{
    lemma_g2_add_at(
        (81, 47),
        (93, 16),
        (5, 72),
        (16, 44),
        (24, 28),
        (25, 25),
        38,
        8,
        (99, 2),
        (98, 93),
        (46, 48),
        (61, 30),
        (76, 92),
        (84, 76),
        (-1, 0, -1, 0, 12, 3, 1, -2, 22, 27),
        (9, 180, -1, -1, 3, 34, -1, 0),
    );
    lemma_distort_at(61, 30, 84, 76, 58, 3, 36, 8);
}

proof fn lemma_sum_7_5()
    ensures
        g2_pt(81, 47, 93, 16).add_defined(g2_pt(69, 33, 71, 86)),
        g2_pt(81, 47, 93, 16).sadd(g2_pt(69, 33, 71, 86)) == g2_pt(29, 87, 70, 40),
        sproject(g2_pt(29, 87, 70, 40)) == col_point(12),
{
    lemma_g2_add_at(
        (81, 47),
        (93, 16),
        (69, 33),
        (71, 86),
        (79, 70),
        (89, 87),
        37,
        71,
        (57, 85),
        (68, 100),
        (78, 66),
        (29, 87),
        (62, 56),
        (70, 40),
        (-1, 0, -1, -1, 153, 26, 62, -62, -15, 105),
        (-54, 134, -1, -1, 74, 24, -1, 0),
    );
    lemma_distort_at(29, 87, 70, 40, 91, 8, 66, 4);
}

proof fn lemma_sum_7_6()
    ensures
        g2_pt(81, 47, 93, 16).add_defined(g2_pt(57, 46, 17, 52)),
        g2_pt(81, 47, 93, 16).sadd(g2_pt(57, 46, 17, 52)) == g2_pt(4, 46, 3, 36),
        sproject(g2_pt(4, 46, 3, 36)) == col_point(13),
{
    lemma_g2_add_at(
        (81, 47),
        (93, 16),
        (57, 46),
        (17, 52),
        (25, 36),
        (77, 100),
        72,
        94,
        (67, 94),
        (8, 15),
        (41, 38),
        (4, 46),
        (96, 52),
        (3, 36),
        (-1, 0, -1, -1, 157, 67, 71, -94, -17, 47),
        (-2, 2, -1, -1, 5, 11, 0, 0),
    );
    lemma_distort_at(4, 46, 3, 36, 60, 4, 60, 3);
}

proof fn lemma_sum_7_7()
    ensures
        g2_pt(81, 47, 93, 16).add_defined(g2_pt(81, 47, 93, 16)),
        g2_pt(81, 47, 93, 16).sadd(g2_pt(81, 47, 93, 16)) == g2_pt(42, 100, 84, 16),
        sproject(g2_pt(42, 100, 84, 16)) == col_point(14),
{
    lemma_g2_double_at(
        (81, 47),
        (93, 16),
        (9, 39),
        (27, 16),
        (85, 32),
        68,
        52,
        (77, 53),
        (19, 37),
        (2, 93),
        (42, 100),
        (76, 32),
        (84, 16),
        (43, 75, 0, 1, 1, 0, 81, 35, 43, -17),
        (12, 26, -10, 13, -2, -1, 26, 4, -1, 0),
    );
    assert(g2_pt(81, 47, 93, 16).sadd(g2_pt(81, 47, 93, 16)) == g2_pt(81, 47, 93, 16).sdouble());
    lemma_distort_at(42, 100, 84, 16, 32, 10, 42, 2);
}

proof fn lemma_sum_7_8()
    ensures
        g2_pt(81, 47, 93, 16).add_defined(g2_pt(18, 69, 94, 11)),
        g2_pt(81, 47, 93, 16).sadd(g2_pt(18, 69, 94, 11)) == g2_pt(71, 14, 32, 68),
        sproject(g2_pt(71, 14, 32, 68)) == col_point(15),
{
    lemma_g2_add_at(
        (81, 47),
        (93, 16),
        (18, 69),
        (94, 11),
        (1, 96),
        (38, 22),
        9,
        45,
        (94, 20),
        (93, 55),
        (69, 29),
        (71, 14),
        (24, 84),
        (32, 68),
        (0, -1, -1, 0, 19, 4, 16, -10, -19, 89),
        (55, 101, -1, -1, -9, 35, -1, 0),
    );
    lemma_distort_at(71, 14, 32, 68, 9, 2, 5, 7);
}

proof fn lemma_sum_7_9()
    ensures
        g2_pt(81, 47, 93, 16).add_defined(g2_pt(83, 80, 84, 22)),
        g2_pt(81, 47, 93, 16).sadd(g2_pt(83, 80, 84, 22)) == g2_pt(93, 48, 94, 99),
        sproject(g2_pt(93, 48, 94, 99)) == col_point(16),
{
    lemma_g2_add_at(
        (81, 47),
        (93, 16),
        (83, 80),
        (84, 22),
        (92, 6),
        (2, 33),
        83,
        28,
        (56, 86),
        (91, 67),
        (55, 74),
        (93, 48),
        (86, 14),
        (94, 99),
        (-1, 0, 0, 0, 10, 23, 0, -10, 45, 81),
        (37, 120, -2, -1, -11, -9, -1, -1),
    );
    lemma_distort_at(93, 48, 94, 99, 68, 5, 74, 10);
}

proof fn lemma_sum_7_10()
    ensures
        g2_pt(81, 47, 93, 16).add_defined(g2_pt(65, 87, 47, 11)),
        g2_pt(81, 47, 93, 16).sadd(g2_pt(65, 87, 47, 11)) == g2_pt(88, 97, 86, 52),
        sproject(g2_pt(88, 97, 86, 52)) == col_point(17),
{
    lemma_g2_add_at(
        (81, 47),
        (93, 16),
        (65, 87),
        (47, 11),
        (55, 96),
        (85, 40),
        38,
        8,
        (74, 84),
        (46, 8),
        (32, 29),
        (88, 97),
        (78, 68),
        (86, 52),
        (-1, -1, -1, 0, 87, 3, 6, -4, -40, 116),
        (20, 7, -2, -2, 0, -24, -1, 0),
    );
    lemma_distort_at(88, 97, 86, 52, 48, 10, 0, 6);
}

proof fn lemma_sum_7_11()
    ensures
        g2_pt(81, 47, 93, 16).add_defined(g2_pt(61, 30, 84, 76)),
        g2_pt(81, 47, 93, 16).sadd(g2_pt(61, 30, 84, 76)) == g2_pt(47, 93, 36, 90),
        sproject(g2_pt(47, 93, 36, 90)) == col_point(18),
{
    lemma_g2_add_at(
        (81, 47),
        (93, 16),
        (61, 30),
        (84, 76),
        (92, 60),
        (81, 84),
        83,
        28,
        (46, 72),
        (13, 92),
        (88, 69),
        (47, 93),
        (28, 5),
        (36, 90),
        (-1, 0, -1, -1, 134, 23, 22, -24, -1, 92),
        (-83, 23, -1, -1, 46, 25, -1, -1),
    );
    lemma_distort_at(47, 93, 36, 90, 68, 9, 27, 9);
}

proof fn lemma_sum_7_12()
    ensures
        g2_pt(81, 47, 93, 16).add_defined(g2_pt(29, 87, 70, 40)),
        g2_pt(81, 47, 93, 16).sadd(g2_pt(29, 87, 70, 40)) == g2_pt(91, 12, 80, 42),
        sproject(g2_pt(91, 12, 80, 42)) == col_point(19),
{
    lemma_g2_add_at(
        (81, 47),
        (93, 16),
        (29, 87),
        (70, 40),
        (78, 24),
        (49, 40),
        62,
        44,
        (35, 58),
        (25, 11),
        (100, 45),
        (91, 12),
        (72, 58),
        (80, 42),
        (-1, 0, -1, 0, 39, 27, 21, -18, 13, 53),
        (4, 5, -1, -1, -7, 7, -1, 0),
    );
    lemma_distort_at(91, 12, 80, 42, 9, 2, 96, 4);
}

proof fn lemma_sum_7_13()
    ensures
        g2_pt(81, 47, 93, 16).add_defined(g2_pt(4, 46, 3, 36)),
        g2_pt(81, 47, 93, 16).sadd(g2_pt(4, 46, 3, 36)) == g2_pt(88, 55, 22, 34),
        sproject(g2_pt(88, 55, 22, 34)) == col_point(20),
{
    lemma_g2_add_at(
        (81, 47),
        (93, 16),
        (4, 46),
        (3, 36),
        (11, 20),
        (24, 100),
        72,
        94,
        (34, 94),
        (9, 98),
        (72, 47),
        (88, 55),
        (14, 50),
        (22, 34),
        (-1, 0, -1, -1, 104, 67, 22, -94, -15, 16),
        (-95, 17, -1, -1, 7, -8, -1, 0),
    );
    lemma_distort_at(88, 55, 22, 34, 32, 6, 59, 3);
}

proof fn lemma_sum_7_14()
    ensures
        g2_pt(81, 47, 93, 16).add_defined(g2_pt(42, 100, 84, 16)),
        g2_pt(81, 47, 93, 16).sadd(g2_pt(42, 100, 84, 16)) == g2_pt(36, 63, 55, 39),
        sproject(g2_pt(36, 63, 55, 39)) == col_point(21),
{
    lemma_g2_add_at(
        (81, 47),
        (93, 16),
        (42, 100),
        (84, 16),
        (92, 0),
        (62, 53),
        88,
        31,
        (3, 74),
        (74, 41),
        (58, 8),
        (36, 63),
        (47, 55),
        (55, 39),
        (-1, 0, -1, 0, 65, 27, 19, -17, 2, 67),
        (37, 60, -1, -2, 39, 6, -1, 0),
    );
    lemma_distort_at(36, 63, 55, 39, 60, 6, 41, 4);
}

proof fn lemma_sum_7_15()
    ensures
        g2_pt(81, 47, 93, 16).add_defined(g2_pt(71, 14, 32, 68)),
        g2_pt(81, 47, 93, 16).sadd(g2_pt(71, 14, 32, 68)) == g2_pt(61, 3, 63, 78),
        sproject(g2_pt(61, 3, 63, 78)) == col_point(22),
{
    lemma_g2_add_at(
        (81, 47),
        (93, 16),
        (71, 14),
        (32, 68),
        (40, 52),
        (91, 68),
        78,
        79,
        (18, 82),
        (92, 75),
        (11, 64),
        (61, 3),
        (55, 94),
        (63, 78),
        (-1, 0, -1, -1, 127, 61, 71, -54, -36, 41),
        (28, 136, -2, 0, -15, 54, -1, 0),
    );
    lemma_distort_at(61, 3, 63, 78, 91, 0, 35, 8);
}

proof fn lemma_sum_7_16()
    ensures
        g2_pt(81, 47, 93, 16).add_defined(g2_pt(93, 48, 94, 99)),
        g2_pt(81, 47, 93, 16).sadd(g2_pt(93, 48, 94, 99)) == g2_pt(5, 76, 13, 86),
        sproject(g2_pt(5, 76, 13, 86)) == col_point(23),
{
    lemma_g2_add_at(
        (81, 47),
        (93, 16),
        (93, 48),
        (94, 99),
        (1, 83),
        (12, 1),
        44,
        62,
        (37, 39),
        (32, 80),
        (78, 70),
        (5, 76),
        (5, 1),
        (13, 86),
        (0, 0, 0, 0, 1, 27, 7, -1, -32, 30),
        (-54, 50, -1, -1, 47, 51, -1, -1),
    );
    lemma_distort_at(5, 76, 13, 86, 58, 7, 65, 8);
}

proof fn lemma_sum_8_1()
    ensures
        g2_pt(18, 69, 94, 11).add_defined(g2_pt(0, 3, 9, 49)),
        g2_pt(18, 69, 94, 11).sadd(g2_pt(0, 3, 9, 49)) == g2_pt(83, 80, 84, 22),
        sproject(g2_pt(83, 80, 84, 22)) == col_point(9),
{
    lemma_g2_add_at(
        (18, 69),
        (94, 11),
        (0, 3),
        (9, 49),
        (16, 38),
        (83, 35),
        34,
        3,
        (47, 97),
        (96, 5),
        (0, 51),
        (83, 80),
        (77, 33),
        (84, 22),
        (-1, 0, -1, -1, 80, 1, 2, -2, -30, 33),
        (91, 9, -1, -1, -62, -14, -1, 0),
    );
    lemma_distort_at(83, 80, 84, 22, 75, 8, 1, 3);
}

proof fn lemma_sum_8_2()
    ensures
        g2_pt(18, 69, 94, 11).add_defined(g2_pt(38, 33, 61, 75)),
        g2_pt(18, 69, 94, 11).sadd(g2_pt(38, 33, 61, 75)) == g2_pt(65, 87, 47, 11),
        sproject(g2_pt(65, 87, 47, 11)) == col_point(10),
{
    lemma_g2_add_at(
        (18, 69),
        (94, 11),
        (38, 33),
        (61, 75),
        (68, 64),
        (20, 65),
        80,
        24,
        (76, 56),
        (69, 87),
        (20, 88),
        (65, 87),
        (40, 22),
        (47, 11),
        (-1, 0, 0, -1, 45, 19, 4, -16, 15, 85),
        (-28, 118, -1, -1, -17, -53, -1, 0),
    );
    lemma_distort_at(65, 87, 47, 11, 26, 9, 56, 1);
}

proof fn lemma_sum_8_3()
    ensures
        g2_pt(18, 69, 94, 11).add_defined(g2_pt(19, 91, 88, 44)),
        g2_pt(18, 69, 94, 11).sadd(g2_pt(19, 91, 88, 44)) == g2_pt(61, 30, 84, 76),
        sproject(g2_pt(61, 30, 84, 76)) == col_point(11),
{
    lemma_g2_add_at(
        (18, 69),
        (94, 11),
        (19, 91),
        (88, 44),
        (95, 33),
        (1, 22),
        81,
        5,
        (5, 92),
        (65, 17),
        (98, 89),
        (61, 30),
        (77, 87),
        (84, 76),
        (-1, 0, 0, 0, 4, 4, 0, -2, -26, 88),
        (38, 21, 0, -1, -35, 17, -1, 0),
    );
    lemma_distort_at(61, 30, 84, 76, 58, 3, 36, 8);
}

proof fn lemma_sum_8_4()
    ensures
        g2_pt(18, 69, 94, 11).add_defined(g2_pt(5, 72, 16, 44)),
        g2_pt(18, 69, 94, 11).sadd(g2_pt(5, 72, 16, 44)) == g2_pt(29, 87, 70, 40),
        sproject(g2_pt(29, 87, 70, 40)) == col_point(12),
{
    lemma_g2_add_at(
        (18, 69),
        (94, 11),
        (5, 72),
        (16, 44),
        (23, 33),
        (88, 3),
        77,
        21,
        (30, 38),
        (42, 46),
        (52, 26),
        (29, 87),
        (63, 51),
        (70, 40),
        (-1, 0, -1, 0, 76, 16, 18, -1, -6, 18),
        (-4, 38, 0, -2, 3, -13, -1, 0),
    );
    lemma_distort_at(29, 87, 70, 40, 91, 8, 66, 4);
}

proof fn lemma_sum_8_5()
    ensures
        g2_pt(18, 69, 94, 11).add_defined(g2_pt(69, 33, 71, 86)),
        g2_pt(18, 69, 94, 11).sadd(g2_pt(69, 33, 71, 86)) == g2_pt(4, 46, 3, 36),
        sproject(g2_pt(4, 46, 3, 36)) == col_point(13),
{
    lemma_g2_add_at(
        (18, 69),
        (94, 11),
        (69, 33),
        (71, 86),
        (78, 75),
        (51, 65),
        59,
        12,
        (6, 28),
        (85, 8),
        (91, 47),
        (4, 46),
        (97, 47),
        (3, 36),
        (-1, 0, 0, -1, 67, 7, 6, -8, -17, 26),
        (70, 13, 0, -1, 9, 20, 0, 0),
    );
    lemma_distort_at(4, 46, 3, 36, 60, 4, 60, 3);
}

proof fn lemma_sum_8_6()
    ensures
        g2_pt(18, 69, 94, 11).add_defined(g2_pt(57, 46, 17, 52)),
        g2_pt(18, 69, 94, 11).sadd(g2_pt(57, 46, 17, 52)) == g2_pt(42, 100, 84, 16),
        sproject(g2_pt(42, 100, 84, 16)) == col_point(14),
{
    lemma_g2_add_at(
        (18, 69),
        (94, 11),
        (57, 46),
        (17, 52),
        (24, 41),
        (39, 78),
        30,
        64,
        (72, 58),
        (57, 1),
        (16, 13),
        (42, 100),
        (77, 27),
        (84, 16),
        (-1, 0, 0, -1, 75, 19, 24, -50, -7, 43),
        (32, 1, -1, -2, -14, -18, -1, 0),
    );
    lemma_distort_at(42, 100, 84, 16, 32, 10, 42, 2);
}

proof fn lemma_sum_8_7()
    ensures
        g2_pt(18, 69, 94, 11).add_defined(g2_pt(81, 47, 93, 16)),
        g2_pt(18, 69, 94, 11).sadd(g2_pt(81, 47, 93, 16)) == g2_pt(71, 14, 32, 68),
        sproject(g2_pt(71, 14, 32, 68)) == col_point(15),
{
    lemma_g2_add_at(
        (18, 69),
        (94, 11),
        (81, 47),
        (93, 16),
        (100, 5),
        (63, 79),
        9,
        45,
        (7, 81),
        (93, 55),
        (69, 29),
        (71, 14),
        (25, 79),
        (32, 68),
        (-1, 0, 0, -1, 101, 4, 28, -36, 2, 80),
        (55, 101, -1, -1, -79, 21, -1, 0),
    );
    lemma_distort_at(71, 14, 32, 68, 9, 2, 5, 7);
}

proof fn lemma_sum_8_8()
    ensures
        g2_pt(18, 69, 94, 11).add_defined(g2_pt(18, 69, 94, 11)),
        g2_pt(18, 69, 94, 11).sadd(g2_pt(18, 69, 94, 11)) == g2_pt(93, 48, 94, 99),
        sproject(g2_pt(93, 48, 94, 99)) == col_point(16),
{
    lemma_g2_double_at(
        (18, 69),
        (94, 11),
        (7, 60),
        (21, 79),
        (87, 22),
        74,
        86,
        (8, 27),
        (55, 88),
        (28, 85),
        (93, 48),
        (87, 9),
        (94, 99),
        (-44, 24, 0, 1, 1, 0, 79, 63, 74, -19),
        (-20, 11, -47, 95, -1, -1, -60, -54, -1, -1),
    );
    assert(g2_pt(18, 69, 94, 11).sadd(g2_pt(18, 69, 94, 11)) == g2_pt(18, 69, 94, 11).sdouble());
    lemma_distort_at(93, 48, 94, 99, 68, 5, 74, 10);
}

proof fn lemma_sum_8_9()
    ensures
        g2_pt(18, 69, 94, 11).add_defined(g2_pt(83, 80, 84, 22)),
        g2_pt(18, 69, 94, 11).sadd(g2_pt(83, 80, 84, 22)) == g2_pt(88, 97, 86, 52),
        sproject(g2_pt(88, 97, 86, 52)) == col_point(17),
{
    lemma_g2_add_at(
        (18, 69),
        (94, 11),
        (83, 80),
        (84, 22),
        (91, 11),
        (65, 11),
        3,
        34,
        (89, 30),
        (93, 73),
        (88, 44),
        (88, 97),
        (79, 63),
        (86, 52),
        (-1, 0, 0, 0, 43, 1, 21, -4, 76, 36),
        (32, 134, -1, -2, -45, -77, -1, 0),
    );
    lemma_distort_at(88, 97, 86, 52, 48, 10, 0, 6);
}

proof fn lemma_sum_8_10()
    ensures
        g2_pt(18, 69, 94, 11).add_defined(g2_pt(65, 87, 47, 11)),
        g2_pt(18, 69, 94, 11).sadd(g2_pt(65, 87, 47, 11)) == g2_pt(47, 93, 36, 90),
        sproject(g2_pt(47, 93, 36, 90)) == col_point(18),
{
    lemma_g2_add_at(
        (18, 69),
        (94, 11),
        (65, 87),
        (47, 11),
        (54, 0),
        (47, 18),
        8,
        38,
        (69, 23),
        (90, 30),
        (29, 47),
        (47, 93),
        (29, 0),
        (36, 90),
        (-1, 0, 0, 0, 25, 3, 17, -7, 36, 12),
        (71, 53, -1, -2, -19, -30, -1, -1),
    );
    lemma_distort_at(47, 93, 36, 90, 68, 9, 27, 9);
}

proof fn lemma_sum_8_11()
    ensures
        g2_pt(18, 69, 94, 11).add_defined(g2_pt(61, 30, 84, 76)),
        g2_pt(18, 69, 94, 11).sadd(g2_pt(61, 30, 84, 76)) == g2_pt(91, 12, 80, 42),
        sproject(g2_pt(91, 12, 80, 42)) == col_point(19),
{
    lemma_g2_add_at(
        (18, 69),
        (94, 11),
        (61, 30),
        (84, 76),
        (91, 65),
        (43, 62),
        37,
        71,
        (23, 42),
        (70, 65),
        (69, 10),
        (91, 12),
        (73, 53),
        (80, 42),
        (-1, 0, 0, -1, 56, 26, 30, -44, -7, 52),
        (6, 90, -1, -1, -88, -8, -1, 0),
    );
    lemma_distort_at(91, 12, 80, 42, 9, 2, 96, 4);
}

proof fn lemma_sum_8_12()
    ensures
        g2_pt(18, 69, 94, 11).add_defined(g2_pt(29, 87, 70, 40)),
        g2_pt(18, 69, 94, 11).sadd(g2_pt(29, 87, 70, 40)) == g2_pt(88, 55, 22, 34),
        sproject(g2_pt(88, 55, 22, 34)) == col_point(20),
{
    lemma_g2_add_at(
        (18, 69),
        (94, 11),
        (29, 87),
        (70, 40),
        (77, 29),
        (11, 18),
        41,
        69,
        (52, 71),
        (26, 6),
        (34, 9),
        (88, 55),
        (15, 45),
        (22, 34),
        (-1, 0, 0, 0, 4, 28, 7, -13, 19, 69),
        (6, 3, -1, -2, -19, -1, -1, 0),
    );
    lemma_distort_at(88, 55, 22, 34, 32, 6, 59, 3);
}

proof fn lemma_sum_8_13()
    ensures
        g2_pt(18, 69, 94, 11).add_defined(g2_pt(4, 46, 3, 36)),
        g2_pt(18, 69, 94, 11).sadd(g2_pt(4, 46, 3, 36)) == g2_pt(36, 63, 55, 39),
        sproject(g2_pt(36, 63, 55, 39)) == col_point(21),
{
    lemma_g2_add_at(
        (18, 69),
        (94, 11),
        (4, 46),
        (3, 36),
        (10, 25),
        (87, 78),
        18,
        73,
        (89, 63),
        (22, 27),
        (58, 77),
        (36, 63),
        (48, 50),
        (55, 39),
        (-1, 0, -1, -1, 135, 13, 62, -57, -7, 28),
        (-3, 11, 0, -1, -6, -4, -1, 0),
    );
    lemma_distort_at(36, 63, 55, 39, 60, 6, 41, 4);
}

proof fn lemma_sum_8_14()
    ensures
        g2_pt(18, 69, 94, 11).add_defined(g2_pt(42, 100, 84, 16)),
        g2_pt(18, 69, 94, 11).sadd(g2_pt(42, 100, 84, 16)) == g2_pt(61, 3, 63, 78),
        sproject(g2_pt(61, 3, 63, 78)) == col_point(22),
{
    lemma_g2_add_at(
        (18, 69),
        (94, 11),
        (42, 100),
        (84, 16),
        (91, 5),
        (24, 31),
        22,
        23,
        (47, 95),
        (65, 93),
        (20, 71),
        (61, 3),
        (56, 89),
        (63, 78),
        (-1, 0, 0, 0, 15, 5, 5, -8, 37, 87),
        (-44, 119, -1, -1, -89, 2, -1, 0),
    );
    lemma_distort_at(61, 3, 63, 78, 91, 0, 35, 8);
}

proof fn lemma_sum_8_15()
    ensures
        g2_pt(18, 69, 94, 11).add_defined(g2_pt(71, 14, 32, 68)),
        g2_pt(18, 69, 94, 11).sadd(g2_pt(71, 14, 32, 68)) == g2_pt(5, 76, 13, 86),
        sproject(g2_pt(5, 76, 13, 86)) == col_point(23),
{
    lemma_g2_add_at(
        (18, 69),
        (94, 11),
        (71, 14),
        (32, 68),
        (39, 57),
        (53, 46),
        77,
        21,
        (2, 44),
        (95, 12),
        (94, 58),
        (5, 76),
        (6, 97),
        (13, 86),
        (-1, 0, 0, -1, 48, 16, 11, -10, -25, 18),
        (87, 22, 0, -1, 13, -6, -1, 0),
    );
    lemma_distort_at(5, 76, 13, 86, 58, 7, 65, 8);
}

proof fn lemma_sum_8_16()
    ensures
        g2_pt(18, 69, 94, 11).add_defined(g2_pt(93, 48, 94, 99)),
        g2_pt(18, 69, 94, 11).sadd(g2_pt(93, 48, 94, 99)) == g2_pt(96, 94, 21, 63),
        sproject(g2_pt(96, 94, 21, 63)) == col_point(24),
{
    lemma_g2_add_at(
        (18, 69),
        (94, 11),
        (93, 48),
        (94, 99),
        (0, 88),
        (75, 80),
        6,
        17,
        (63, 54),
        (96, 90),
        (5, 9),
        (96, 94),
        (14, 74),
        (21, 63),
        (0, 0, 0, -1, 119, 1, 12, -14, -48, 54),
        (11, 171, -2, -2, -52, -94, -1, 0),
    );
    lemma_distort_at(96, 94, 21, 63, 26, 10, 45, 6);
}

proof fn lemma_sum_9_1()
    ensures
        g2_pt(83, 80, 84, 22).add_defined(g2_pt(0, 3, 9, 49)),
        g2_pt(83, 80, 84, 22).sadd(g2_pt(0, 3, 9, 49)) == g2_pt(65, 87, 47, 11),
        sproject(g2_pt(65, 87, 47, 11)) == col_point(10),
{
    lemma_g2_add_at(
        (83, 80),
        (84, 22),
        (0, 3),
        (9, 49),
        (26, 27),
        (18, 24),
        92,
        56,
        (99, 70),
        (78, 49),
        (47, 69),
        (65, 87),
        (30, 33),
        (47, 11),
        (-1, 0, -1, -1, 8, 51, 9, -14, 6, 44),
        (36, 75, -1, -1, 17, 3, -1, 0),
    );
    lemma_distort_at(65, 87, 47, 11, 26, 9, 56, 1);
}

proof fn lemma_sum_9_2()
    ensures
        g2_pt(83, 80, 84, 22).add_defined(g2_pt(38, 33, 61, 75)),
        g2_pt(83, 80, 84, 22).sadd(g2_pt(38, 33, 61, 75)) == g2_pt(61, 30, 84, 76),
        sproject(g2_pt(61, 30, 84, 76)) == col_point(11),
{
    lemma_g2_add_at(
        (83, 80),
        (84, 22),
        (38, 33),
        (61, 75),
        (78, 53),
        (56, 54),
        93,
        63,
        (94, 32),
        (81, 4),
        (81, 42),
        (61, 30),
        (67, 98),
        (84, 76),
        (-1, 0, -1, -1, 59, 58, 34, -34, 55, 74),
        (64, 6, -1, -1, 15, 40, -1, 0),
    );
    lemma_distort_at(61, 30, 84, 76, 58, 3, 36, 8);
}

proof fn lemma_sum_9_3()
    ensures
        g2_pt(83, 80, 84, 22).add_defined(g2_pt(19, 91, 88, 44)),
        g2_pt(83, 80, 84, 22).sadd(g2_pt(19, 91, 88, 44)) == g2_pt(29, 87, 70, 40),
        sproject(g2_pt(29, 87, 70, 40)) == col_point(12),
{
    lemma_g2_add_at(
        (83, 80),
        (84, 22),
        (19, 91),
        (88, 44),
        (4, 22),
        (37, 11),
        76,
        4,
        (47, 57),
        (45, 50),
        (30, 56),
        (29, 87),
        (53, 62),
        (70, 40),
        (0, 0, -1, 0, 14, 3, 1, -1, -11, 12),
        (-5, 44, -1, -2, 27, 23, -1, 0),
    );
    lemma_distort_at(29, 87, 70, 40, 91, 8, 66, 4);
}

proof fn lemma_sum_9_4()
    ensures
        g2_pt(83, 80, 84, 22).add_defined(g2_pt(5, 72, 16, 44)),
        g2_pt(83, 80, 84, 22).sadd(g2_pt(5, 72, 16, 44)) == g2_pt(4, 46, 3, 36),
        sproject(g2_pt(4, 46, 3, 36)) == col_point(13),
{
    lemma_g2_add_at(
        (83, 80),
        (84, 22),
        (5, 72),
        (16, 44),
        (33, 22),
        (23, 93),
        88,
        31,
        (6, 46),
        (95, 34),
        (92, 97),
        (4, 46),
        (87, 58),
        (3, 36),
        (-1, 0, -1, -1, 90, 27, 7, -29, -9, 16),
        (77, 63, 0, -1, 62, 58, 0, 0),
    );
    lemma_distort_at(4, 46, 3, 36, 60, 4, 60, 3);
}

proof fn lemma_sum_9_5()
    ensures
        g2_pt(83, 80, 84, 22).add_defined(g2_pt(69, 33, 71, 86)),
        g2_pt(83, 80, 84, 22).sadd(g2_pt(69, 33, 71, 86)) == g2_pt(42, 100, 84, 16),
        sproject(g2_pt(42, 100, 84, 16)) == col_point(14),
{
    lemma_g2_add_at(
        (83, 80),
        (84, 22),
        (69, 33),
        (71, 86),
        (88, 64),
        (87, 54),
        82,
        85,
        (22, 56),
        (69, 74),
        (93, 11),
        (42, 100),
        (67, 38),
        (84, 16),
        (-1, 0, -1, -1, 103, 69, 73, -46, -17, 62),
        (-8, 101, -1, -2, 42, 16, -1, 0),
    );
    lemma_distort_at(42, 100, 84, 16, 32, 10, 42, 2);
}

proof fn lemma_sum_9_6()
    ensures
        g2_pt(83, 80, 84, 22).add_defined(g2_pt(57, 46, 17, 52)),
        g2_pt(83, 80, 84, 22).sadd(g2_pt(57, 46, 17, 52)) == g2_pt(71, 14, 32, 68),
        sproject(g2_pt(71, 14, 32, 68)) == col_point(15),
{
    lemma_g2_add_at(
        (83, 80),
        (84, 22),
        (57, 46),
        (17, 52),
        (34, 30),
        (75, 67),
        14,
        65,
        (27, 89),
        (66, 99),
        (9, 39),
        (71, 14),
        (15, 90),
        (32, 68),
        (-1, 0, -1, -1, 100, 9, 48, -44, -18, 37),
        (-54, 129, -2, -1, -57, 54, -1, 0),
    );
    lemma_distort_at(71, 14, 32, 68, 9, 2, 5, 7);
}

proof fn lemma_sum_9_7()
    ensures
        g2_pt(83, 80, 84, 22).add_defined(g2_pt(81, 47, 93, 16)),
        g2_pt(83, 80, 84, 22).sadd(g2_pt(81, 47, 93, 16)) == g2_pt(93, 48, 94, 99),
        sproject(g2_pt(93, 48, 94, 99)) == col_point(16),
{
    lemma_g2_add_at(
        (83, 80),
        (84, 22),
        (81, 47),
        (93, 16),
        (9, 95),
        (99, 68),
        83,
        28,
        (45, 15),
        (91, 67),
        (55, 74),
        (93, 48),
        (77, 20),
        (94, 99),
        (0, -1, -1, -1, 142, 23, 27, -19, -11, 43),
        (37, 120, -2, -1, -31, 22, -1, -1),
    );
    lemma_distort_at(93, 48, 94, 99, 68, 5, 74, 10);
}

proof fn lemma_sum_9_8()
    ensures
        g2_pt(83, 80, 84, 22).add_defined(g2_pt(18, 69, 94, 11)),
        g2_pt(83, 80, 84, 22).sadd(g2_pt(18, 69, 94, 11)) == g2_pt(88, 97, 86, 52),
        sproject(g2_pt(88, 97, 86, 52)) == col_point(17),
{
    lemma_g2_add_at(
        (83, 80),
        (84, 22),
        (18, 69),
        (94, 11),
        (10, 90),
        (36, 90),
        3,
        34,
        (12, 71),
        (93, 73),
        (88, 44),
        (88, 97),
        (69, 74),
        (86, 52),
        (0, -1, -1, -1, 93, 1, 12, -31, -63, 17),
        (32, 134, -1, -2, 7, -20, -1, 0),
    );
    lemma_distort_at(88, 97, 86, 52, 48, 10, 0, 6);
}

proof fn lemma_sum_9_9()
    ensures
        g2_pt(83, 80, 84, 22).add_defined(g2_pt(83, 80, 84, 22)),
        g2_pt(83, 80, 84, 22).sadd(g2_pt(83, 80, 84, 22)) == g2_pt(47, 93, 36, 90),
        sproject(g2_pt(47, 93, 36, 90)) == col_point(18),
{
    lemma_g2_double_at(
        (83, 80),
        (84, 22),
        (85, 49),
        (53, 46),
        (67, 44),
        62,
        44,
        (19, 84),
        (72, 74),
        (11, 51),
        (47, 93),
        (19, 11),
        (36, 90),
        (4, 131, 2, 1, 1, 0, 63, 27, 29, -20),
        (-29, 52, -3, 105, -2, -2, 35, 17, -1, -1),
    );
    assert(g2_pt(83, 80, 84, 22).sadd(g2_pt(83, 80, 84, 22)) == g2_pt(83, 80, 84, 22).sdouble());
    lemma_distort_at(47, 93, 36, 90, 68, 9, 27, 9);
}

proof fn lemma_sum_9_10()
    ensures
        g2_pt(83, 80, 84, 22).add_defined(g2_pt(65, 87, 47, 11)),
        g2_pt(83, 80, 84, 22).sadd(g2_pt(65, 87, 47, 11)) == g2_pt(91, 12, 80, 42),
        sproject(g2_pt(91, 12, 80, 42)) == col_point(19),
{
    lemma_g2_add_at(
        (83, 80),
        (84, 22),
        (65, 87),
        (47, 11),
        (64, 90),
        (83, 7),
        70,
        13,
        (69, 10),
        (82, 83),
        (37, 78),
        (91, 12),
        (63, 64),
        (80, 42),
        (-1, -1, -1, 0, 68, 9, 10, -1, 34, 67),
        (-2, 134, -2, -1, -63, 48, -1, 0),
    );
    lemma_distort_at(91, 12, 80, 42, 9, 2, 96, 4);
}

proof fn lemma_sum_9_11()
    ensures
        g2_pt(83, 80, 84, 22).add_defined(g2_pt(61, 30, 84, 76)),
        g2_pt(83, 80, 84, 22).sadd(g2_pt(61, 30, 84, 76)) == g2_pt(88, 55, 22, 34),
        sproject(g2_pt(88, 55, 22, 34)) == col_point(20),
{
    lemma_g2_add_at(
        (83, 80),
        (84, 22),
        (61, 30),
        (84, 76),
        (0, 54),
        (79, 51),
        55,
        90,
        (40, 56),
        (6, 39),
        (30, 64),
        (88, 55),
        (5, 56),
        (22, 34),
        (0, 0, -1, -1, 87, 49, 70, -46, -30, 21),
        (-15, 4, -2, -1, -10, -1, -1, 0),
    );
    lemma_distort_at(88, 55, 22, 34, 32, 6, 59, 3);
}

proof fn lemma_sum_9_12()
    ensures
        g2_pt(83, 80, 84, 22).add_defined(g2_pt(29, 87, 70, 40)),
        g2_pt(83, 80, 84, 22).sadd(g2_pt(29, 87, 70, 40)) == g2_pt(36, 63, 55, 39),
        sproject(g2_pt(36, 63, 55, 39)) == col_point(21),
{
    lemma_g2_add_at(
        (83, 80),
        (84, 22),
        (29, 87),
        (70, 40),
        (87, 18),
        (47, 7),
        36,
        87,
        (49, 98),
        (75, 15),
        (47, 28),
        (36, 63),
        (38, 61),
        (55, 39),
        (-1, 0, -1, 0, 22, 31, 40, -7, 24, 93),
        (53, 22, -1, -2, 32, 19, -1, 0),
    );
    lemma_distort_at(36, 63, 55, 39, 60, 6, 41, 4);
}

proof fn lemma_sum_9_13()
    ensures
        g2_pt(83, 80, 84, 22).add_defined(g2_pt(4, 46, 3, 36)),
        g2_pt(83, 80, 84, 22).sadd(g2_pt(4, 46, 3, 36)) == g2_pt(61, 3, 63, 78),
        sproject(g2_pt(61, 3, 63, 78)) == col_point(22),
{
    lemma_g2_add_at(
        (83, 80),
        (84, 22),
        (4, 46),
        (3, 36),
        (20, 14),
        (22, 67),
        24,
        80,
        (43, 94),
        (49, 58),
        (47, 28),
        (61, 3),
        (46, 100),
        (63, 78),
        (-1, 0, -1, -1, 49, 19, 17, -54, -5, 24),
        (-10, 56, -1, -1, -34, 49, -1, 0),
    );
    lemma_distort_at(61, 3, 63, 78, 91, 0, 35, 8);
}

proof fn lemma_sum_9_14()
    ensures
        g2_pt(83, 80, 84, 22).add_defined(g2_pt(42, 100, 84, 16)),
        g2_pt(83, 80, 84, 22).sadd(g2_pt(42, 100, 84, 16)) == g2_pt(5, 76, 13, 86),
        sproject(g2_pt(5, 76, 13, 86)) == col_point(23),
{
    lemma_g2_add_at(
        (83, 80),
        (84, 22),
        (42, 100),
        (84, 16),
        (0, 95),
        (60, 20),
        61,
        53,
        (49, 51),
        (3, 9),
        (29, 54),
        (5, 76),
        (97, 7),
        (13, 86),
        (0, -1, -1, 0, 39, 32, 31, -11, -48, 46),
        (-1, 0, -1, -2, 1, 7, 0, -1),
    );
    lemma_distort_at(5, 76, 13, 86, 58, 7, 65, 8);
}

proof fn lemma_sum_9_15()
    ensures
        g2_pt(83, 80, 84, 22).add_defined(g2_pt(71, 14, 32, 68)),
        g2_pt(83, 80, 84, 22).sadd(g2_pt(71, 14, 32, 68)) == g2_pt(96, 94, 21, 63),
        sproject(g2_pt(96, 94, 21, 63)) == col_point(24),
{
    lemma_g2_add_at(
        (83, 80),
        (84, 22),
        (71, 14),
        (32, 68),
        (49, 46),
        (89, 35),
        56,
        92,
        (7, 12),
        (94, 1),
        (48, 87),
        (96, 94),
        (4, 85),
        (21, 63),
        (-1, 0, -1, -1, 90, 51, 81, -32, -3, 9),
        (87, 1, -2, -1, -12, -14, -1, 0),
    );
    lemma_distort_at(96, 94, 21, 63, 26, 10, 45, 6);
}

proof fn lemma_sum_9_16()
    ensures
        g2_pt(83, 80, 84, 22).add_defined(g2_pt(93, 48, 94, 99)),
        g2_pt(83, 80, 84, 22).sadd(g2_pt(93, 48, 94, 99)) == g2_pt(68, 31, 10, 9),
        sproject(g2_pt(68, 31, 10, 9)) == col_point(25),
{
    lemma_g2_add_at(
        (83, 80),
        (84, 22),
        (93, 48),
        (94, 99),
        (10, 77),
        (10, 69),
        13,
        70,
        (94, 18),
        (59, 45),
        (42, 58),
        (68, 31),
        (94, 31),
        (10, 9),
        (0, 0, 0, -1, 48, 9, 6, -48, -5, 73),
        (14, 52, -2, -1, -14, 35, 0, 0),
    );
    lemma_distort_at(68, 31, 10, 9, 75, 3, 100, 0);
}

proof fn lemma_sum_10_1()
    ensures
        g2_pt(65, 87, 47, 11).add_defined(g2_pt(0, 3, 9, 49)),
        g2_pt(65, 87, 47, 11).sadd(g2_pt(0, 3, 9, 49)) == g2_pt(61, 30, 84, 76),
        sproject(g2_pt(61, 30, 84, 76)) == col_point(11),
{
    lemma_g2_add_at(
        (65, 87),
        (47, 11),
        (0, 3),
        (9, 49),
        (63, 38),
        (36, 17),
        70,
        13,
        (64, 82),
        (7, 23),
        (25, 19),
        (61, 30),
        (30, 87),
        (84, 76),
        (-1, 0, -1, -1, 15, 9, 4, -3, 9, 75),
        (-5, 3, -1, -1, -13, 4, -1, 0),
    );
    lemma_distort_at(61, 30, 84, 76, 58, 3, 36, 8);
}

proof fn lemma_sum_10_2()
    ensures
        g2_pt(65, 87, 47, 11).add_defined(g2_pt(38, 33, 61, 75)),
        g2_pt(65, 87, 47, 11).sadd(g2_pt(38, 33, 61, 75)) == g2_pt(29, 87, 70, 40),
        sproject(g2_pt(29, 87, 70, 40)) == col_point(12),
{
    lemma_g2_add_at(
        (65, 87),
        (47, 11),
        (38, 33),
        (61, 75),
        (14, 64),
        (74, 47),
        9,
        45,
        (98, 6),
        (79, 94),
        (31, 5),
        (29, 87),
        (16, 51),
        (70, 40),
        (0, 0, -1, -1, 76, 4, 32, -21, 9, 62),
        (-26, 147, -1, -2, 28, 33, -1, 0),
    );
    lemma_distort_at(29, 87, 70, 40, 91, 8, 66, 4);
}

proof fn lemma_sum_10_3()
    ensures
        g2_pt(65, 87, 47, 11).add_defined(g2_pt(19, 91, 88, 44)),
        g2_pt(65, 87, 47, 11).sadd(g2_pt(19, 91, 88, 44)) == g2_pt(4, 46, 3, 36),
        sproject(g2_pt(4, 46, 3, 36)) == col_point(13),
{
    lemma_g2_add_at(
        (65, 87),
        (47, 11),
        (19, 91),
        (88, 44),
        (41, 33),
        (55, 4),
        11,
        46,
        (5, 18),
        (15, 95),
        (88, 22),
        (4, 46),
        (50, 47),
        (3, 36),
        (0, 0, -1, 0, 30, 5, 25, -2, -4, 8),
        (-88, 28, 0, -2, -30, 63, 0, 0),
    );
    lemma_distort_at(4, 46, 3, 36, 60, 4, 60, 3);
}

proof fn lemma_sum_10_4()
    ensures
        g2_pt(65, 87, 47, 11).add_defined(g2_pt(5, 72, 16, 44)),
        g2_pt(65, 87, 47, 11).sadd(g2_pt(5, 72, 16, 44)) == g2_pt(42, 100, 84, 16),
        sproject(g2_pt(42, 100, 84, 16)) == col_point(14),
{
    lemma_g2_add_at(
        (65, 87),
        (47, 11),
        (5, 72),
        (16, 44),
        (70, 33),
        (41, 86),
        88,
        31,
        (59, 61),
        (97, 56),
        (11, 57),
        (42, 100),
        (30, 27),
        (84, 16),
        (-1, 0, -1, -1, 89, 27, 12, -27, 20, 61),
        (62, 107, -1, -2, 29, 0, -1, 0),
    );
    lemma_distort_at(42, 100, 84, 16, 32, 10, 42, 2);
}

proof fn lemma_sum_10_5()
    ensures
        g2_pt(65, 87, 47, 11).add_defined(g2_pt(69, 33, 71, 86)),
        g2_pt(65, 87, 47, 11).sadd(g2_pt(69, 33, 71, 86)) == g2_pt(71, 14, 32, 68),
        sproject(g2_pt(71, 14, 32, 68)) == col_point(15),
{
    lemma_g2_add_at(
        (65, 87),
        (47, 11),
        (69, 33),
        (71, 86),
        (24, 75),
        (4, 47),
        3,
        34,
        (35, 18),
        (96, 27),
        (3, 33),
        (71, 14),
        (79, 79),
        (32, 68),
        (0, 0, 0, -1, 22, 1, 1, -16, -6, 30),
        (84, 51, -2, -1, -26, 67, 0, 0),
    );
    lemma_distort_at(71, 14, 32, 68, 9, 2, 5, 7);
}

proof fn lemma_sum_10_6()
    ensures
        g2_pt(65, 87, 47, 11).add_defined(g2_pt(57, 46, 17, 52)),
        g2_pt(65, 87, 47, 11).sadd(g2_pt(57, 46, 17, 52)) == g2_pt(93, 48, 94, 99),
        sproject(g2_pt(93, 48, 94, 99)) == col_point(16),
{
    lemma_g2_add_at(
        (65, 87),
        (47, 11),
        (57, 46),
        (17, 52),
        (71, 41),
        (93, 60),
        28,
        83,
        (43, 70),
        (82, 67),
        (13, 80),
        (93, 48),
        (40, 9),
        (94, 99),
        (-1, 0, -1, -1, 121, 23, 76, -50, 1, 66),
        (22, 108, -2, -1, -49, 13, -1, -1),
    );
    lemma_distort_at(93, 48, 94, 99, 68, 5, 74, 10);
}

proof fn lemma_sum_10_7()
    ensures
        g2_pt(65, 87, 47, 11).add_defined(g2_pt(81, 47, 93, 16)),
        g2_pt(65, 87, 47, 11).sadd(g2_pt(81, 47, 93, 16)) == g2_pt(88, 97, 86, 52),
        sproject(g2_pt(88, 97, 86, 52)) == col_point(17),
{
    lemma_g2_add_at(
        (65, 87),
        (47, 11),
        (81, 47),
        (93, 16),
        (46, 5),
        (16, 61),
        38,
        8,
        (27, 17),
        (46, 8),
        (32, 29),
        (88, 97),
        (32, 63),
        (86, 52),
        (0, 0, 0, -1, 39, 3, 1, -5, 11, 9),
        (20, 7, -2, -2, -10, -7, -1, 0),
    );
    lemma_distort_at(88, 97, 86, 52, 48, 10, 0, 6);
}

proof fn lemma_sum_10_8()
    ensures
        g2_pt(65, 87, 47, 11).add_defined(g2_pt(18, 69, 94, 11)),
        g2_pt(65, 87, 47, 11).sadd(g2_pt(18, 69, 94, 11)) == g2_pt(47, 93, 36, 90),
        sproject(g2_pt(47, 93, 36, 90)) == col_point(18),
{
    lemma_g2_add_at(
        (65, 87),
        (47, 11),
        (18, 69),
        (94, 11),
        (47, 0),
        (54, 83),
        8,
        38,
        (32, 78),
        (90, 30),
        (29, 47),
        (47, 93),
        (83, 0),
        (36, 90),
        (0, 0, -1, -1, 97, 3, 20, -32, 14, 36),
        (71, 53, -1, -2, 17, 0, 0, -1),
    );
    lemma_distort_at(47, 93, 36, 90, 68, 9, 27, 9);
}

proof fn lemma_sum_10_9()
    ensures
        g2_pt(65, 87, 47, 11).add_defined(g2_pt(83, 80, 84, 22)),
        g2_pt(65, 87, 47, 11).sadd(g2_pt(83, 80, 84, 22)) == g2_pt(91, 12, 80, 42),
        sproject(g2_pt(91, 12, 80, 42)) == col_point(19),
{
    lemma_g2_add_at(
        (65, 87),
        (47, 11),
        (83, 80),
        (84, 22),
        (37, 11),
        (18, 94),
        70,
        13,
        (32, 91),
        (82, 83),
        (37, 78),
        (91, 12),
        (26, 53),
        (80, 42),
        (0, 0, 0, -1, 90, 9, 2, -13, 1, 36),
        (-2, 134, -2, -1, -83, 39, -1, 0),
    );
    lemma_distort_at(91, 12, 80, 42, 9, 2, 96, 4);
}

proof fn lemma_sum_10_10()
    ensures
        g2_pt(65, 87, 47, 11).add_defined(g2_pt(65, 87, 47, 11)),
        g2_pt(65, 87, 47, 11).sadd(g2_pt(65, 87, 47, 11)) == g2_pt(88, 55, 22, 34),
        sproject(g2_pt(88, 55, 22, 34)) == col_point(20),
{
    lemma_g2_double_at(
        (65, 87),
        (47, 11),
        (90, 99),
        (68, 95),
        (94, 22),
        28,
        83,
        (25, 93),
        (36, 13),
        (16, 27),
        (88, 55),
        (69, 45),
        (22, 34),
        (-34, 111, 2, 2, 0, 0, 92, 23, 77, -19),
        (-71, 86, 11, 9, -2, -2, -13, 8, 0, 0),
    );
    assert(g2_pt(65, 87, 47, 11).sadd(g2_pt(65, 87, 47, 11)) == g2_pt(65, 87, 47, 11).sdouble());
    lemma_distort_at(88, 55, 22, 34, 32, 6, 59, 3);
}

proof fn lemma_sum_10_11()
    ensures
        g2_pt(65, 87, 47, 11).add_defined(g2_pt(61, 30, 84, 76)),
        g2_pt(65, 87, 47, 11).sadd(g2_pt(61, 30, 84, 76)) == g2_pt(36, 63, 55, 39),
        sproject(g2_pt(36, 63, 55, 39)) == col_point(21),
{
    lemma_g2_add_at(
        (65, 87),
        (47, 11),
        (61, 30),
        (84, 76),
        (37, 65),
        (97, 44),
        33,
        49,
        (6, 66),
        (73, 4),
        (61, 79),
        (36, 63),
        (1, 50),
        (55, 39),
        (0, 0, -1, -1, 112, 16, 47, -22, -41, 28),
        (52, 5, -1, -1, 20, 18, -1, 0),
    );
    lemma_distort_at(36, 63, 55, 39, 60, 6, 41, 4);
}

proof fn lemma_sum_10_12()
    ensures
        g2_pt(65, 87, 47, 11).add_defined(g2_pt(29, 87, 70, 40)),
        g2_pt(65, 87, 47, 11).sadd(g2_pt(29, 87, 70, 40)) == g2_pt(61, 3, 63, 78),
        sproject(g2_pt(61, 3, 63, 78)) == col_point(22),
{
    lemma_g2_add_at(
        (65, 87),
        (47, 11),
        (29, 87),
        (70, 40),
        (23, 29),
        (65, 0),
        84,
        95,
        (14, 0),
        (19, 2),
        (54, 76),
        (61, 3),
        (9, 89),
        (63, 78),
        (0, 0, -1, 0, 41, 79, 61, 0, 3, 4),
        (3, 0, -1, -1, -1, 15, -1, 0),
    );
    lemma_distort_at(61, 3, 63, 78, 91, 0, 35, 8);
}

proof fn lemma_sum_10_13()
    ensures
        g2_pt(65, 87, 47, 11).add_defined(g2_pt(4, 46, 3, 36)),
        g2_pt(65, 87, 47, 11).sadd(g2_pt(4, 46, 3, 36)) == g2_pt(5, 76, 13, 86),
        sproject(g2_pt(5, 76, 13, 86)) == col_point(23),
{
    lemma_g2_add_at(
        (65, 87),
        (47, 11),
        (4, 46),
        (3, 36),
        (57, 25),
        (40, 60),
        49,
        33,
        (7, 40),
        (5, 31),
        (74, 7),
        (5, 76),
        (60, 97),
        (13, 86),
        (-1, 0, -1, -1, 51, 16, 13, -20, -6, 24),
        (-10, 3, 0, -2, -1, 18, 0, 0),
    );
    lemma_distort_at(5, 76, 13, 86, 58, 7, 65, 8);
}

proof fn lemma_sum_10_14()
    ensures
        g2_pt(65, 87, 47, 11).add_defined(g2_pt(42, 100, 84, 16)),
        g2_pt(65, 87, 47, 11).sadd(g2_pt(42, 100, 84, 16)) == g2_pt(96, 94, 21, 63),
        sproject(g2_pt(96, 94, 21, 63)) == col_point(24),
{
    lemma_g2_add_at(
        (65, 87),
        (47, 11),
        (42, 100),
        (84, 16),
        (37, 5),
        (78, 13),
        92,
        56,
        (25, 80),
        (20, 55),
        (1, 79),
        (96, 94),
        (68, 74),
        (21, 63),
        (0, 0, -1, 0, 61, 51, 43, -8, 5, 30),
        (-26, 21, -2, -2, -3, -19, 0, 0),
    );
    lemma_distort_at(96, 94, 21, 63, 26, 10, 45, 6);
}

proof fn lemma_sum_10_15()
    ensures
        g2_pt(65, 87, 47, 11).add_defined(g2_pt(71, 14, 32, 68)),
        g2_pt(65, 87, 47, 11).sadd(g2_pt(71, 14, 32, 68)) == g2_pt(68, 31, 10, 9),
        sproject(g2_pt(68, 31, 10, 9)) == col_point(25),
{
    lemma_g2_add_at(
        (65, 87),
        (47, 11),
        (71, 14),
        (32, 68),
        (86, 57),
        (6, 28),
        12,
        59,
        (51, 65),
        (75, 13),
        (2, 31),
        (68, 31),
        (57, 20),
        (10, 9),
        (-1, 0, 0, -1, 8, 7, 3, -17, 6, 84),
        (54, 19, -2, -1, -10, 41, 0, 0),
    );
    lemma_distort_at(68, 31, 10, 9, 75, 3, 100, 0);
}

proof fn lemma_sum_10_16()
    ensures
        g2_pt(65, 87, 47, 11).add_defined(g2_pt(93, 48, 94, 99)),
        g2_pt(65, 87, 47, 11).sadd(g2_pt(93, 48, 94, 99)) == g2_pt(31, 98, 39, 6),
        sproject(g2_pt(31, 98, 39, 6)) == col_point(26),
{
    lemma_g2_add_at(
        (65, 87),
        (47, 11),
        (93, 48),
        (94, 99),
        (47, 88),
        (28, 62),
        83,
        28,
        (77, 82),
        (39, 25),
        (88, 31),
        (31, 98),
        (86, 17),
        (39, 6),
        (0, 0, 0, -1, 45, 23, 7, -18, -36, 105),
        (8, 19, -1, -2, 15, 4, 0, 0),
    );
    lemma_distort_at(31, 98, 39, 6, 1, 10, 99, 0);
}

proof fn lemma_sum_11_1()
    ensures
        g2_pt(61, 30, 84, 76).add_defined(g2_pt(0, 3, 9, 49)),
        g2_pt(61, 30, 84, 76).sadd(g2_pt(0, 3, 9, 49)) == g2_pt(29, 87, 70, 40),
        sproject(g2_pt(29, 87, 70, 40)) == col_point(12),
{
    lemma_g2_add_at(
        (61, 30),
        (84, 76),
        (0, 3),
        (9, 49),
        (26, 74),
        (40, 74),
        6,
        17,
        (74, 55),
        (76, 38),
        (90, 19),
        (29, 87),
        (53, 15),
        (70, 40),
        (-1, -1, -1, -1, 70, 1, 6, -13, -22, 68),
        (42, 57, 0, -1, 45, -31, -1, -1),
    );
    lemma_distort_at(29, 87, 70, 40, 91, 8, 66, 4);
}

proof fn lemma_sum_11_2()
    ensures
        g2_pt(61, 30, 84, 76).add_defined(g2_pt(38, 33, 61, 75)),
        g2_pt(61, 30, 84, 76).sadd(g2_pt(38, 33, 61, 75)) == g2_pt(4, 46, 3, 36),
        sproject(g2_pt(4, 46, 3, 36)) == col_point(13),
{
    lemma_g2_add_at(
        (61, 30),
        (84, 76),
        (38, 33),
        (61, 75),
        (78, 100),
        (78, 3),
        33,
        49,
        (85, 55),
        (19, 64),
        (2, 8),
        (4, 46),
        (87, 11),
        (3, 36),
        (-1, -1, -1, 0, 60, 16, 37, -2, 11, 126),
        (-37, 24, -1, -1, 20, 33, 0, -1),
    );
    lemma_distort_at(4, 46, 3, 36, 60, 4, 60, 3);
}

proof fn lemma_sum_11_3()
    ensures
        g2_pt(61, 30, 84, 76).add_defined(g2_pt(19, 91, 88, 44)),
        g2_pt(61, 30, 84, 76).sadd(g2_pt(19, 91, 88, 44)) == g2_pt(42, 100, 84, 16),
        sproject(g2_pt(42, 100, 84, 16)) == col_point(14),
{
    lemma_g2_add_at(
        (61, 30),
        (84, 76),
        (19, 91),
        (88, 44),
        (4, 69),
        (59, 61),
        31,
        88,
        (41, 86),
        (88, 42),
        (21, 19),
        (42, 100),
        (67, 92),
        (84, 16),
        (0, -1, -1, 0, 71, 27, 51, -54, -58, 31),
        (59, 73, -1, -2, 45, -54, -1, 0),
    );
    lemma_distort_at(42, 100, 84, 16, 32, 10, 42, 2);
}

proof fn lemma_sum_11_4()
    ensures
        g2_pt(61, 30, 84, 76).add_defined(g2_pt(5, 72, 16, 44)),
        g2_pt(61, 30, 84, 76).sadd(g2_pt(5, 72, 16, 44)) == g2_pt(71, 14, 32, 68),
        sproject(g2_pt(71, 14, 32, 68)) == col_point(15),
{
    lemma_g2_add_at(
        (61, 30),
        (84, 76),
        (5, 72),
        (16, 44),
        (33, 69),
        (45, 42),
        52,
        68,
        (30, 73),
        (94, 35),
        (36, 15),
        (71, 14),
        (15, 43),
        (32, 68),
        (-1, -1, -1, 0, 37, 35, 30, -29, -41, 44),
        (75, 65, -1, -1, -15, 11, -1, -1),
    );
    lemma_distort_at(71, 14, 32, 68, 9, 2, 5, 7);
}

proof fn lemma_sum_11_5()
    ensures
        g2_pt(61, 30, 84, 76).add_defined(g2_pt(69, 33, 71, 86)),
        g2_pt(61, 30, 84, 76).sadd(g2_pt(69, 33, 71, 86)) == g2_pt(93, 48, 94, 99),
        sproject(g2_pt(93, 48, 94, 99)) == col_point(16),
{
    lemma_g2_add_at(
        (61, 30),
        (84, 76),
        (69, 33),
        (71, 86),
        (88, 10),
        (8, 3),
        73,
        18,
        (43, 47),
        (82, 21),
        (21, 10),
        (93, 48),
        (77, 74),
        (94, 99),
        (-1, 0, 0, 0, 0, 13, 1, -1, 32, 45),
        (62, 34, -2, -1, -23, -22, -1, -1),
    );
    lemma_distort_at(93, 48, 94, 99, 68, 5, 74, 10);
}

proof fn lemma_sum_11_6()
    ensures
        g2_pt(61, 30, 84, 76).add_defined(g2_pt(57, 46, 17, 52)),
        g2_pt(61, 30, 84, 76).sadd(g2_pt(57, 46, 17, 52)) == g2_pt(88, 97, 86, 52),
        sproject(g2_pt(88, 97, 86, 52)) == col_point(17),
{
    lemma_g2_add_at(
        (61, 30),
        (84, 76),
        (57, 46),
        (17, 52),
        (34, 77),
        (97, 16),
        70,
        13,
        (49, 95),
        (7, 34),
        (4, 72),
        (88, 97),
        (69, 27),
        (86, 52),
        (-1, -1, -1, 0, 95, 9, 12, -3, -56, 69),
        (-11, 4, -2, -1, 20, -14, -1, -1),
    );
    lemma_distort_at(88, 97, 86, 52, 48, 10, 0, 6);
}

proof fn lemma_sum_11_7()
    ensures
        g2_pt(61, 30, 84, 76).add_defined(g2_pt(81, 47, 93, 16)),
        g2_pt(61, 30, 84, 76).sadd(g2_pt(81, 47, 93, 16)) == g2_pt(47, 93, 36, 90),
        sproject(g2_pt(47, 93, 36, 90)) == col_point(18),
{
    lemma_g2_add_at(
        (61, 30),
        (84, 76),
        (81, 47),
        (93, 16),
        (9, 41),
        (20, 17),
        83,
        28,
        (55, 29),
        (13, 92),
        (88, 69),
        (47, 93),
        (19, 65),
        (36, 90),
        (0, -1, 0, 0, 6, 23, 5, -5, -7, 24),
        (-83, 23, -1, -1, 59, 4, -1, -1),
    );
    lemma_distort_at(47, 93, 36, 90, 68, 9, 27, 9);
}

proof fn lemma_sum_11_8()
    ensures
        g2_pt(61, 30, 84, 76).add_defined(g2_pt(18, 69, 94, 11)),
        g2_pt(61, 30, 84, 76).sadd(g2_pt(18, 69, 94, 11)) == g2_pt(91, 12, 80, 42),
        sproject(g2_pt(91, 12, 80, 42)) == col_point(19),
{
    lemma_g2_add_at(
        (61, 30),
        (84, 76),
        (18, 69),
        (94, 11),
        (10, 36),
        (58, 39),
        37,
        71,
        (78, 59),
        (70, 65),
        (69, 10),
        (91, 12),
        (63, 17),
        (80, 42),
        (0, -1, -1, 0, 48, 26, 40, -28, -14, 33),
        (6, 90, -1, -1, -33, -7, -1, -1),
    );
    lemma_distort_at(91, 12, 80, 42, 9, 2, 96, 4);
}

proof fn lemma_sum_11_9()
    ensures
        g2_pt(61, 30, 84, 76).add_defined(g2_pt(83, 80, 84, 22)),
        g2_pt(61, 30, 84, 76).sadd(g2_pt(83, 80, 84, 22)) == g2_pt(88, 55, 22, 34),
        sproject(g2_pt(88, 55, 22, 34)) == col_point(20),
{
    lemma_g2_add_at(
        (61, 30),
        (84, 76),
        (83, 80),
        (84, 22),
        (0, 47),
        (22, 50),
        55,
        90,
        (61, 45),
        (6, 39),
        (30, 64),
        (88, 55),
        (5, 9),
        (22, 34),
        (0, -1, 0, 0, 29, 49, 19, -45, -21, 28),
        (-15, 4, -2, -1, 8, -12, -1, -1),
    );
    lemma_distort_at(88, 55, 22, 34, 32, 6, 59, 3);
}

proof fn lemma_sum_11_10()
    ensures
        g2_pt(61, 30, 84, 76).add_defined(g2_pt(65, 87, 47, 11)),
        g2_pt(61, 30, 84, 76).sadd(g2_pt(65, 87, 47, 11)) == g2_pt(36, 63, 55, 39),
        sproject(g2_pt(36, 63, 55, 39)) == col_point(21),
{
    lemma_g2_add_at(
        (61, 30),
        (84, 76),
        (65, 87),
        (47, 11),
        (64, 36),
        (4, 57),
        33,
        49,
        (95, 35),
        (73, 4),
        (61, 79),
        (36, 63),
        (38, 14),
        (55, 39),
        (-1, -1, 0, 0, 32, 16, 1, -28, 47, 56),
        (52, 5, -1, -1, 19, -23, -1, -1),
    );
    lemma_distort_at(36, 63, 55, 39, 60, 6, 41, 4);
}

proof fn lemma_sum_11_11()
    ensures
        g2_pt(61, 30, 84, 76).add_defined(g2_pt(61, 30, 84, 76)),
        g2_pt(61, 30, 84, 76).sadd(g2_pt(61, 30, 84, 76)) == g2_pt(61, 3, 63, 78),
        sproject(g2_pt(61, 3, 63, 78)) == col_point(22),
{
    lemma_g2_double_at(
        (61, 30),
        (84, 76),
        (94, 24),
        (80, 72),
        (67, 51),
        20,
        96,
        (69, 53),
        (88, 17),
        (82, 63),
        (61, 3),
        (46, 53),
        (63, 78),
        (27, 36, 2, 0, 1, 1, 70, 19, 63, -49),
        (16, 91, 73, 29, -1, 0, -5, 23, -1, -1),
    );
    assert(g2_pt(61, 30, 84, 76).sadd(g2_pt(61, 30, 84, 76)) == g2_pt(61, 30, 84, 76).sdouble());
    lemma_distort_at(61, 3, 63, 78, 91, 0, 35, 8);
}

proof fn lemma_sum_11_12()
    ensures
        g2_pt(61, 30, 84, 76).add_defined(g2_pt(29, 87, 70, 40)),
        g2_pt(61, 30, 84, 76).sadd(g2_pt(29, 87, 70, 40)) == g2_pt(5, 76, 13, 86),
        sproject(g2_pt(5, 76, 13, 86)) == col_point(23),
{
    lemma_g2_add_at(
        (61, 30),
        (84, 76),
        (29, 87),
        (70, 40),
        (87, 65),
        (69, 57),
        31,
        88,
        (12, 34),
        (46, 1),
        (95, 92),
        (5, 76),
        (97, 61),
        (13, 86),
        (-1, -1, -1, 0, 79, 27, 60, -50, -12, 37),
        (20, 0, 0, -1, 25, -21, 0, -1),
    );
    lemma_distort_at(5, 76, 13, 86, 58, 7, 65, 8);
}

proof fn lemma_sum_11_13()
    ensures
        g2_pt(61, 30, 84, 76).add_defined(g2_pt(4, 46, 3, 36)),
        g2_pt(61, 30, 84, 76).sadd(g2_pt(4, 46, 3, 36)) == g2_pt(96, 94, 21, 63),
        sproject(g2_pt(96, 94, 21, 63)) == col_point(24),
{
    lemma_g2_add_at(
        (61, 30),
        (84, 76),
        (4, 46),
        (3, 36),
        (20, 61),
        (44, 16),
        71,
        37,
        (12, 14),
        (93, 2),
        (60, 69),
        (96, 94),
        (4, 38),
        (21, 63),
        (-1, -1, -1, 0, 21, 26, 16, -6, -7, 10),
        (85, 3, -1, -1, -31, -60, -1, -1),
    );
    lemma_distort_at(96, 94, 21, 63, 26, 10, 45, 6);
}

proof fn lemma_sum_11_14()
    ensures
        g2_pt(61, 30, 84, 76).add_defined(g2_pt(42, 100, 84, 16)),
        g2_pt(61, 30, 84, 76).sadd(g2_pt(42, 100, 84, 16)) == g2_pt(68, 31, 10, 9),
        sproject(g2_pt(68, 31, 10, 9)) == col_point(25),
{
    lemma_g2_add_at(
        (61, 30),
        (84, 76),
        (42, 100),
        (84, 16),
        (0, 41),
        (82, 70),
        9,
        45,
        (54, 82),
        (72, 93),
        (70, 60),
        (68, 31),
        (94, 85),
        (10, 9),
        (0, -1, -1, 0, 115, 4, 36, -32, -34, 21),
        (-35, 132, -1, -1, -5, -8, 0, 0),
    );
    lemma_distort_at(68, 31, 10, 9, 75, 3, 100, 0);
}

proof fn lemma_sum_11_15()
    ensures
        g2_pt(61, 30, 84, 76).add_defined(g2_pt(71, 14, 32, 68)),
        g2_pt(61, 30, 84, 76).sadd(g2_pt(71, 14, 32, 68)) == g2_pt(31, 98, 39, 6),
        sproject(g2_pt(31, 98, 39, 6)) == col_point(26),
{
    lemma_g2_add_at(
        (61, 30),
        (84, 76),
        (71, 14),
        (32, 68),
        (49, 93),
        (10, 85),
        53,
        61,
        (4, 67),
        (25, 19),
        (62, 41),
        (31, 98),
        (22, 82),
        (39, 6),
        (-1, -1, 0, -1, 72, 32, 6, -52, -60, 36),
        (2, 9, -1, -1, 20, -12, -1, 0),
    );
    lemma_distort_at(31, 98, 39, 6, 1, 10, 99, 0);
}

proof fn lemma_sum_11_16()
    ensures
        g2_pt(61, 30, 84, 76).add_defined(g2_pt(93, 48, 94, 99)),
        g2_pt(61, 30, 84, 76).sadd(g2_pt(93, 48, 94, 99)) == g2_pt(5, 95, 77, 68),
        sproject(g2_pt(5, 95, 77, 68)) == col_point(27),
{
    lemma_g2_add_at(
        (61, 30),
        (84, 76),
        (93, 48),
        (94, 99),
        (10, 23),
        (32, 18),
        35,
        26,
        (24, 37),
        (96, 13),
        (58, 72),
        (5, 95),
        (60, 43),
        (77, 68),
        (0, 0, 0, 0, 13, 9, 8, -5, -7, 9),
        (89, 24, -1, -1, 61, -55, -1, -1),
    );
    lemma_distort_at(5, 95, 77, 68, 46, 9, 50, 7);
}

proof fn lemma_sum_12_1()
    ensures
        g2_pt(29, 87, 70, 40).add_defined(g2_pt(0, 3, 9, 49)),
        g2_pt(29, 87, 70, 40).sadd(g2_pt(0, 3, 9, 49)) == g2_pt(4, 46, 3, 36),
        sproject(g2_pt(4, 46, 3, 36)) == col_point(13),
{
    lemma_g2_add_at(
        (29, 87),
        (70, 40),
        (0, 3),
        (9, 49),
        (40, 9),
        (72, 17),
        19,
        16,
        (41, 31),
        (48, 94),
        (33, 35),
        (4, 46),
        (73, 76),
        (3, 36),
        (-1, 0, -1, -1, 54, 3, 11, -3, 13, 15),
        (-65, 89, 0, -1, -27, 42, 0, 0),
    );
    lemma_distort_at(4, 46, 3, 36, 60, 4, 60, 3);
}

proof fn lemma_sum_12_2()
    ensures
        g2_pt(29, 87, 70, 40).add_defined(g2_pt(38, 33, 61, 75)),
        g2_pt(29, 87, 70, 40).sadd(g2_pt(38, 33, 61, 75)) == g2_pt(42, 100, 84, 16),
        sproject(g2_pt(42, 100, 84, 16)) == col_point(14),
{
    lemma_g2_add_at(
        (29, 87),
        (70, 40),
        (38, 33),
        (61, 75),
        (92, 35),
        (9, 47),
        68,
        52,
        (64, 81),
        (23, 97),
        (8, 18),
        (42, 100),
        (53, 56),
        (84, 16),
        (-1, 0, 0, -1, 22, 35, 4, -25, 30, 95),
        (-88, 44, -1, -2, 9, -16, -1, 0),
    );
    lemma_distort_at(42, 100, 84, 16, 32, 10, 42, 2);
}

proof fn lemma_sum_12_3()
    ensures
        g2_pt(29, 87, 70, 40).add_defined(g2_pt(19, 91, 88, 44)),
        g2_pt(29, 87, 70, 40).sadd(g2_pt(19, 91, 88, 44)) == g2_pt(71, 14, 32, 68),
        sproject(g2_pt(71, 14, 32, 68)) == col_point(15),
{
    lemma_g2_add_at(
        (29, 87),
        (70, 40),
        (19, 91),
        (88, 44),
        (18, 4),
        (91, 4),
        15,
        27,
        (33, 94),
        (16, 6),
        (18, 91),
        (71, 14),
        (1, 7),
        (32, 68),
        (0, 0, -1, 0, 82, 4, 24, -2, 2, 18),
        (2, 1, -1, -1, -11, 9, -1, -1),
    );
    lemma_distort_at(71, 14, 32, 68, 9, 2, 5, 7);
}

proof fn lemma_sum_12_4()
    ensures
        g2_pt(29, 87, 70, 40).add_defined(g2_pt(5, 72, 16, 44)),
        g2_pt(29, 87, 70, 40).sadd(g2_pt(5, 72, 16, 44)) == g2_pt(93, 48, 94, 99),
        sproject(g2_pt(93, 48, 94, 99)) == col_point(16),
{
    lemma_g2_add_at(
        (29, 87),
        (70, 40),
        (5, 72),
        (16, 44),
        (47, 4),
        (77, 86),
        94,
        72,
        (90, 70),
        (11, 14),
        (26, 5),
        (93, 48),
        (63, 38),
        (94, 99),
        (-1, 0, -1, -1, 131, 67, 54, -62, 39, 36),
        (-1, 3, -1, -2, -13, -5, -1, -1),
    );
    lemma_distort_at(93, 48, 94, 99, 68, 5, 74, 10);
}

proof fn lemma_sum_12_5()
    ensures
        g2_pt(29, 87, 70, 40).add_defined(g2_pt(69, 33, 71, 86)),
        g2_pt(29, 87, 70, 40).sadd(g2_pt(69, 33, 71, 86)) == g2_pt(88, 97, 86, 52),
        sproject(g2_pt(88, 97, 86, 52)) == col_point(17),
{
    lemma_g2_add_at(
        (29, 87),
        (70, 40),
        (69, 33),
        (71, 86),
        (1, 46),
        (40, 47),
        72,
        94,
        (23, 26),
        (39, 74),
        (85, 15),
        (88, 97),
        (55, 92),
        (86, 52),
        (0, 0, 0, -1, 37, 67, 37, -44, -12, 10),
        (-40, 57, -1, -2, -16, -48, -1, 0),
    );
    lemma_distort_at(88, 97, 86, 52, 48, 10, 0, 6);
}

proof fn lemma_sum_12_6()
    ensures
        g2_pt(29, 87, 70, 40).add_defined(g2_pt(57, 46, 17, 52)),
        g2_pt(29, 87, 70, 40).sadd(g2_pt(57, 46, 17, 52)) == g2_pt(47, 93, 36, 90),
        sproject(g2_pt(47, 93, 36, 90)) == col_point(18),
{
    lemma_g2_add_at(
        (29, 87),
        (70, 40),
        (57, 46),
        (17, 52),
        (48, 12),
        (28, 60),
        41,
        69,
        (13, 1),
        (6, 2),
        (32, 24),
        (47, 93),
        (5, 29),
        (36, 90),
        (-1, 0, 0, -1, 43, 28, 19, -41, 6, 2),
        (0, 0, -1, -2, -1, -1, -1, -1),
    );
    lemma_distort_at(47, 93, 36, 90, 68, 9, 27, 9);
}

proof fn lemma_sum_12_7()
    ensures
        g2_pt(29, 87, 70, 40).add_defined(g2_pt(81, 47, 93, 16)),
        g2_pt(29, 87, 70, 40).sadd(g2_pt(81, 47, 93, 16)) == g2_pt(91, 12, 80, 42),
        sproject(g2_pt(91, 12, 80, 42)) == col_point(19),
{
    lemma_g2_add_at(
        (29, 87),
        (70, 40),
        (81, 47),
        (93, 16),
        (23, 77),
        (52, 61),
        62,
        44,
        (66, 43),
        (25, 11),
        (100, 45),
        (91, 12),
        (49, 82),
        (80, 42),
        (0, -1, 0, -1, 63, 27, 22, -27, -18, 60),
        (4, 5, -1, -1, -24, 11, -1, 0),
    );
    lemma_distort_at(91, 12, 80, 42, 9, 2, 96, 4);
}

proof fn lemma_sum_12_8()
    ensures
        g2_pt(29, 87, 70, 40).add_defined(g2_pt(18, 69, 94, 11)),
        g2_pt(29, 87, 70, 40).sadd(g2_pt(18, 69, 94, 11)) == g2_pt(88, 55, 22, 34),
        sproject(g2_pt(88, 55, 22, 34)) == col_point(20),
{
    lemma_g2_add_at(
        (29, 87),
        (70, 40),
        (18, 69),
        (94, 11),
        (24, 72),
        (90, 83),
        41,
        69,
        (49, 30),
        (26, 6),
        (34, 9),
        (88, 55),
        (92, 74),
        (22, 34),
        (0, -1, -1, -1, 148, 28, 61, -57, -10, 42),
        (6, 3, -1, -2, -18, 4, 0, 0),
    );
    lemma_distort_at(88, 55, 22, 34, 32, 6, 59, 3);
}

proof fn lemma_sum_12_9()
    ensures
        g2_pt(29, 87, 70, 40).add_defined(g2_pt(83, 80, 84, 22)),
        g2_pt(29, 87, 70, 40).sadd(g2_pt(83, 80, 84, 22)) == g2_pt(36, 63, 55, 39),
        sproject(g2_pt(36, 63, 55, 39)) == col_point(21),
{
    lemma_g2_add_at(
        (29, 87),
        (70, 40),
        (83, 80),
        (84, 22),
        (14, 83),
        (54, 94),
        36,
        87,
        (52, 3),
        (75, 15),
        (47, 28),
        (36, 63),
        (24, 79),
        (55, 39),
        (0, -1, 0, -1, 116, 31, 46, -81, 4, 43),
        (53, 22, -1, -2, -9, 16, -1, 0),
    );
    lemma_distort_at(36, 63, 55, 39, 60, 6, 41, 4);
}

proof fn lemma_sum_12_10()
    ensures
        g2_pt(29, 87, 70, 40).add_defined(g2_pt(65, 87, 47, 11)),
        g2_pt(29, 87, 70, 40).sadd(g2_pt(65, 87, 47, 11)) == g2_pt(61, 3, 63, 78),
        sproject(g2_pt(61, 3, 63, 78)) == col_point(22),
{
    lemma_g2_add_at(
        (29, 87),
        (70, 40),
        (65, 87),
        (47, 11),
        (78, 72),
        (36, 0),
        84,
        95,
        (87, 0),
        (19, 2),
        (54, 76),
        (61, 3),
        (32, 17),
        (63, 78),
        (-1, -1, 0, 0, 12, 79, 33, 0, 67, 62),
        (3, 0, -1, -1, -8, 15, -1, -1),
    );
    lemma_distort_at(61, 3, 63, 78, 91, 0, 35, 8);
}

proof fn lemma_sum_12_11()
    ensures
        g2_pt(29, 87, 70, 40).add_defined(g2_pt(61, 30, 84, 76)),
        g2_pt(29, 87, 70, 40).sadd(g2_pt(61, 30, 84, 76)) == g2_pt(5, 76, 13, 86),
        sproject(g2_pt(5, 76, 13, 86)) == col_point(23),
{
    lemma_g2_add_at(
        (29, 87),
        (70, 40),
        (61, 30),
        (84, 76),
        (14, 36),
        (32, 44),
        31,
        88,
        (89, 67),
        (46, 1),
        (95, 92),
        (5, 76),
        (83, 25),
        (13, 86),
        (0, 0, 0, -1, 29, 27, 27, -39, -12, 41),
        (20, 0, 0, -1, 10, 5, 0, -1),
    );
    lemma_distort_at(5, 76, 13, 86, 58, 7, 65, 8);
}

proof fn lemma_sum_12_12()
    ensures
        g2_pt(29, 87, 70, 40).add_defined(g2_pt(29, 87, 70, 40)),
        g2_pt(29, 87, 70, 40).sadd(g2_pt(29, 87, 70, 40)) == g2_pt(96, 94, 21, 63),
        sproject(g2_pt(96, 94, 21, 63)) == col_point(24),
{
    lemma_g2_double_at(
        (29, 87),
        (70, 40),
        (39, 97),
        (16, 89),
        (39, 80),
        43,
        47,
        (15, 78),
        (65, 58),
        (53, 66),
        (96, 94),
        (91, 2),
        (21, 63),
        (-67, 49, 1, 2, 1, 0, 78, 20, 18, -38),
        (-67, 25, 8, 74, -1, -2, -40, -43, 0, -1),
    );
    assert(g2_pt(29, 87, 70, 40).sadd(g2_pt(29, 87, 70, 40)) == g2_pt(29, 87, 70, 40).sdouble());
    lemma_distort_at(96, 94, 21, 63, 26, 10, 45, 6);
}

proof fn lemma_sum_12_13()
    ensures
        g2_pt(29, 87, 70, 40).add_defined(g2_pt(4, 46, 3, 36)),
        g2_pt(29, 87, 70, 40).sadd(g2_pt(4, 46, 3, 36)) == g2_pt(68, 31, 10, 9),
        sproject(g2_pt(68, 31, 10, 9)) == col_point(25),
{
    lemma_g2_add_at(
        (29, 87),
        (70, 40),
        (4, 46),
        (3, 36),
        (34, 97),
        (76, 60),
        84,
        95,
        (49, 57),
        (76, 25),
        (0, 63),
        (68, 31),
        (80, 49),
        (10, 9),
        (-1, -1, -1, -1, 92, 79, 71, -57, -39, 66),
        (51, 37, -1, -1, -44, 32, 0, 0),
    );
    lemma_distort_at(68, 31, 10, 9, 75, 3, 100, 0);
}

proof fn lemma_sum_12_14()
    ensures
        g2_pt(29, 87, 70, 40).add_defined(g2_pt(42, 100, 84, 16)),
        g2_pt(29, 87, 70, 40).sadd(g2_pt(42, 100, 84, 16)) == g2_pt(31, 98, 39, 6),
        sproject(g2_pt(31, 98, 39, 6)) == col_point(26),
{
    lemma_g2_add_at(
        (29, 87),
        (70, 40),
        (42, 100),
        (84, 16),
        (14, 77),
        (13, 13),
        35,
        26,
        (35, 66),
        (54, 84),
        (1, 83),
        (31, 98),
        (8, 46),
        (39, 6),
        (0, -1, 0, 0, 3, 9, 3, -4, -46, 35),
        (-41, 89, -1, -2, 8, -8, -1, 0),
    );
    lemma_distort_at(31, 98, 39, 6, 1, 10, 99, 0);
}

proof fn lemma_sum_12_15()
    ensures
        g2_pt(29, 87, 70, 40).add_defined(g2_pt(71, 14, 32, 68)),
        g2_pt(29, 87, 70, 40).sadd(g2_pt(71, 14, 32, 68)) == g2_pt(5, 95, 77, 68),
        sproject(g2_pt(5, 95, 77, 68)) == col_point(27),
{
    lemma_g2_add_at(
        (29, 87),
        (70, 40),
        (71, 14),
        (32, 68),
        (63, 28),
        (42, 28),
        23,
        22,
        (15, 91),
        (13, 93),
        (4, 95),
        (5, 95),
        (46, 7),
        (77, 68),
        (-1, 0, 0, -1, 25, 5, 9, -7, -16, 60),
        (-84, 23, -1, -1, 10, 21, -1, -1),
    );
    lemma_distort_at(5, 95, 77, 68, 46, 9, 50, 7);
}

proof fn lemma_sum_12_16()
    ensures
        g2_pt(29, 87, 70, 40).add_defined(g2_pt(93, 48, 94, 99)),
        g2_pt(29, 87, 70, 40).sadd(g2_pt(93, 48, 94, 99)) == g2_pt(83, 3, 54, 52),
        sproject(g2_pt(83, 3, 54, 52)) == col_point(28),
{
    lemma_g2_add_at(
        (29, 87),
        (70, 40),
        (93, 48),
        (94, 99),
        (24, 59),
        (64, 62),
        62,
        44,
        (89, 100),
        (74, 76),
        (3, 37),
        (83, 3),
        (23, 92),
        (54, 52),
        (0, 0, 0, -1, 78, 27, 27, -28, -38, 75),
        (-3, 111, -2, -1, -103, 20, -1, 0),
    );
    lemma_distort_at(83, 3, 54, 52, 12, 1, 69, 5);
}

proof fn lemma_sum_13_1()
    ensures
        g2_pt(4, 46, 3, 36).add_defined(g2_pt(0, 3, 9, 49)),
        g2_pt(4, 46, 3, 36).sadd(g2_pt(0, 3, 9, 49)) == g2_pt(42, 100, 84, 16),
        sproject(g2_pt(42, 100, 84, 16)) == col_point(14),
{
    lemma_g2_add_at(
        (4, 46),
        (3, 36),
        (0, 3),
        (9, 49),
        (6, 13),
        (97, 58),
        47,
        43,
        (30, 31),
        (80, 71),
        (46, 48),
        (42, 100),
        (87, 52),
        (84, 16),
        (0, 0, -1, -1, 126, 20, 41, -25, -3, 5),
        (13, 112, 0, -1, 7, -70, 0, 0),
    );
    lemma_distort_at(42, 100, 84, 16, 32, 10, 42, 2);
}

proof fn lemma_sum_13_2()
    ensures
        g2_pt(4, 46, 3, 36).add_defined(g2_pt(38, 33, 61, 75)),
        g2_pt(4, 46, 3, 36).sadd(g2_pt(38, 33, 61, 75)) == g2_pt(71, 14, 32, 68),
        sproject(g2_pt(71, 14, 32, 68)) == col_point(15),
{
    lemma_g2_add_at(
        (4, 46),
        (3, 36),
        (38, 33),
        (61, 75),
        (58, 39),
        (34, 88),
        12,
        59,
        (87, 60),
        (80, 5),
        (12, 93),
        (71, 14),
        (35, 3),
        (32, 68),
        (0, 0, 0, -1, 88, 7, 19, -52, 26, 68),
        (63, 7, -1, 0, -55, 22, 0, -1),
    );
    lemma_distort_at(71, 14, 32, 68, 9, 2, 5, 7);
}

proof fn lemma_sum_13_3()
    ensures
        g2_pt(4, 46, 3, 36).add_defined(g2_pt(19, 91, 88, 44)),
        g2_pt(4, 46, 3, 36).sadd(g2_pt(19, 91, 88, 44)) == g2_pt(93, 48, 94, 99),
        sproject(g2_pt(93, 48, 94, 99)) == col_point(16),
{
    lemma_g2_add_at(
        (4, 46),
        (3, 36),
        (19, 91),
        (88, 44),
        (85, 8),
        (15, 45),
        28,
        83,
        (33, 2),
        (62, 30),
        (15, 84),
        (93, 48),
        (97, 34),
        (94, 99),
        (0, 0, 0, 0, 22, 23, 12, -37, 27, 4),
        (29, 36, -1, -1, -55, -28, 0, -1),
    );
    lemma_distort_at(93, 48, 94, 99, 68, 5, 74, 10);
}

proof fn lemma_sum_13_4()
    ensures
        g2_pt(4, 46, 3, 36).add_defined(g2_pt(5, 72, 16, 44)),
        g2_pt(4, 46, 3, 36).sadd(g2_pt(5, 72, 16, 44)) == g2_pt(88, 97, 86, 52),
        sproject(g2_pt(88, 97, 86, 52)) == col_point(17),
{
    lemma_g2_add_at(
        (4, 46),
        (3, 36),
        (5, 72),
        (16, 44),
        (13, 8),
        (1, 26),
        71,
        37,
        (37, 48),
        (97, 11),
        (97, 13),
        (88, 97),
        (89, 88),
        (86, 52),
        (0, 0, 0, 0, 6, 26, 0, -10, 0, 9),
        (91, 21, 0, -2, -76, -59, 0, 0),
    );
    lemma_distort_at(88, 97, 86, 52, 48, 10, 0, 6);
}

proof fn lemma_sum_13_5()
    ensures
        g2_pt(4, 46, 3, 36).add_defined(g2_pt(69, 33, 71, 86)),
        g2_pt(4, 46, 3, 36).sadd(g2_pt(69, 33, 71, 86)) == g2_pt(47, 93, 36, 90),
        sproject(g2_pt(47, 93, 36, 90)) == col_point(18),
{
    lemma_g2_add_at(
        (4, 46),
        (3, 36),
        (69, 33),
        (71, 86),
        (68, 50),
        (65, 88),
        51,
        2,
        (29, 26),
        (66, 87),
        (19, 71),
        (47, 93),
        (39, 25),
        (36, 90),
        (0, 0, 0, -1, 118, 1, 1, -2, 6, 31),
        (-32, 113, -1, -1, 12, -68, 0, -1),
    );
    lemma_distort_at(47, 93, 36, 90, 68, 9, 27, 9);
}

proof fn lemma_sum_13_6()
    ensures
        g2_pt(4, 46, 3, 36).add_defined(g2_pt(57, 46, 17, 52)),
        g2_pt(4, 46, 3, 36).sadd(g2_pt(57, 46, 17, 52)) == g2_pt(91, 12, 80, 42),
        sproject(g2_pt(91, 12, 80, 42)) == col_point(19),
{
    lemma_g2_add_at(
        (4, 46),
        (3, 36),
        (57, 46),
        (17, 52),
        (14, 16),
        (53, 0),
        82,
        85,
        (61, 0),
        (46, 67),
        (51, 3),
        (91, 12),
        (83, 78),
        (80, 42),
        (0, 0, 0, 0, 27, 69, 44, 0, 8, 9),
        (-24, 61, -1, -1, -63, -43, 0, 0),
    );
    lemma_distort_at(91, 12, 80, 42, 9, 2, 96, 4);
}

proof fn lemma_sum_13_7()
    ensures
        g2_pt(4, 46, 3, 36).add_defined(g2_pt(81, 47, 93, 16)),
        g2_pt(4, 46, 3, 36).sadd(g2_pt(81, 47, 93, 16)) == g2_pt(88, 55, 22, 34),
        sproject(g2_pt(88, 55, 22, 34)) == col_point(20),
{
    lemma_g2_add_at(
        (4, 46),
        (3, 36),
        (81, 47),
        (93, 16),
        (90, 81),
        (77, 1),
        72,
        94,
        (67, 7),
        (9, 98),
        (72, 47),
        (88, 55),
        (25, 70),
        (22, 34),
        (0, -1, 0, 0, 58, 67, 71, -1, 54, 59),
        (-95, 17, -1, -1, 1, -83, 0, 0),
    );
    lemma_distort_at(88, 55, 22, 34, 32, 6, 59, 3);
}

proof fn lemma_sum_13_8()
    ensures
        g2_pt(4, 46, 3, 36).add_defined(g2_pt(18, 69, 94, 11)),
        g2_pt(4, 46, 3, 36).sadd(g2_pt(18, 69, 94, 11)) == g2_pt(36, 63, 55, 39),
        sproject(g2_pt(36, 63, 55, 39)) == col_point(21),
{
    lemma_g2_add_at(
        (4, 46),
        (3, 36),
        (18, 69),
        (94, 11),
        (91, 76),
        (14, 23),
        18,
        73,
        (12, 38),
        (22, 27),
        (58, 77),
        (36, 63),
        (58, 75),
        (55, 39),
        (0, -1, 0, 0, 7, 13, 10, -17, -18, 43),
        (-3, 11, 0, -1, -3, -13, 0, 0),
    );
    lemma_distort_at(36, 63, 55, 39, 60, 6, 41, 4);
}

proof fn lemma_sum_13_9()
    ensures
        g2_pt(4, 46, 3, 36).add_defined(g2_pt(83, 80, 84, 22)),
        g2_pt(4, 46, 3, 36).sadd(g2_pt(83, 80, 84, 22)) == g2_pt(61, 3, 63, 78),
        sproject(g2_pt(61, 3, 63, 78)) == col_point(22),
{
    lemma_g2_add_at(
        (4, 46),
        (3, 36),
        (83, 80),
        (84, 22),
        (81, 87),
        (79, 34),
        24,
        80,
        (58, 7),
        (49, 58),
        (47, 28),
        (61, 3),
        (66, 13),
        (63, 78),
        (0, -1, 0, 0, 73, 19, 62, -27, 40, 55),
        (-10, 56, -1, -1, -53, -12, 0, -1),
    );
    lemma_distort_at(61, 3, 63, 78, 91, 0, 35, 8);
}

proof fn lemma_sum_13_10()
    ensures
        g2_pt(4, 46, 3, 36).add_defined(g2_pt(65, 87, 47, 11)),
        g2_pt(4, 46, 3, 36).sadd(g2_pt(65, 87, 47, 11)) == g2_pt(5, 76, 13, 86),
        sproject(g2_pt(5, 76, 13, 86)) == col_point(23),
{
    lemma_g2_add_at(
        (4, 46),
        (3, 36),
        (65, 87),
        (47, 11),
        (44, 76),
        (61, 41),
        49,
        33,
        (94, 61),
        (5, 31),
        (74, 7),
        (5, 76),
        (16, 21),
        (13, 86),
        (0, -1, 0, 0, 53, 16, 19, -14, -5, 97),
        (-10, 3, 0, -2, 9, -2, 0, -1),
    );
    lemma_distort_at(5, 76, 13, 86, 58, 7, 65, 8);
}

proof fn lemma_sum_13_11()
    ensures
        g2_pt(4, 46, 3, 36).add_defined(g2_pt(61, 30, 84, 76)),
        g2_pt(4, 46, 3, 36).sadd(g2_pt(61, 30, 84, 76)) == g2_pt(96, 94, 21, 63),
        sproject(g2_pt(96, 94, 21, 63)) == col_point(24),
{
    lemma_g2_add_at(
        (4, 46),
        (3, 36),
        (61, 30),
        (84, 76),
        (81, 40),
        (57, 85),
        71,
        37,
        (89, 87),
        (93, 2),
        (60, 69),
        (96, 94),
        (24, 99),
        (21, 63),
        (0, 0, 0, -1, 103, 26, 20, -32, 36, 105),
        (85, 3, -1, -1, -84, -47, 0, 0),
    );
    lemma_distort_at(96, 94, 21, 63, 26, 10, 45, 6);
}

proof fn lemma_sum_13_12()
    ensures
        g2_pt(4, 46, 3, 36).add_defined(g2_pt(29, 87, 70, 40)),
        g2_pt(4, 46, 3, 36).sadd(g2_pt(29, 87, 70, 40)) == g2_pt(68, 31, 10, 9),
        sproject(g2_pt(68, 31, 10, 9)) == col_point(25),
{
    lemma_g2_add_at(
        (4, 46),
        (3, 36),
        (29, 87),
        (70, 40),
        (67, 4),
        (25, 41),
        84,
        95,
        (52, 44),
        (76, 25),
        (0, 63),
        (68, 31),
        (13, 45),
        (10, 9),
        (0, 0, 0, 0, 22, 79, 23, -39, 32, 31),
        (51, 37, -1, -1, -52, -5, 0, 0),
    );
    lemma_distort_at(68, 31, 10, 9, 75, 3, 100, 0);
}

proof fn lemma_sum_13_13()
    ensures
        g2_pt(4, 46, 3, 36).add_defined(g2_pt(4, 46, 3, 36)),
        g2_pt(4, 46, 3, 36).sadd(g2_pt(4, 46, 3, 36)) == g2_pt(31, 98, 39, 6),
        sproject(g2_pt(31, 98, 39, 6)) == col_point(26),
{
    lemma_g2_double_at(
        (4, 46),
        (3, 36),
        (21, 65),
        (63, 94),
        (6, 72),
        69,
        41,
        (44, 78),
        (86, 61),
        (39, 89),
        (31, 98),
        (42, 42),
        (39, 6),
        (-21, 3, 0, 1, 0, 0, 51, 28, 2, -30),
        (-46, 89, 36, 103, 0, -1, 8, -61, 0, 0),
    );
    assert(g2_pt(4, 46, 3, 36).sadd(g2_pt(4, 46, 3, 36)) == g2_pt(4, 46, 3, 36).sdouble());
    lemma_distort_at(31, 98, 39, 6, 1, 10, 99, 0);
}

proof fn lemma_sum_13_14()
    ensures
        g2_pt(4, 46, 3, 36).add_defined(g2_pt(42, 100, 84, 16)),
        g2_pt(4, 46, 3, 36).sadd(g2_pt(42, 100, 84, 16)) == g2_pt(5, 95, 77, 68),
        sproject(g2_pt(5, 95, 77, 68)) == col_point(27),
{
    lemma_g2_add_at(
        (4, 46),
        (3, 36),
        (42, 100),
        (84, 16),
        (81, 81),
        (38, 54),
        17,
        6,
        (26, 80),
        (70, 1),
        (51, 39),
        (5, 95),
        (80, 3),
        (77, 68),
        (0, -1, 0, 0, 43, 1, 2, -4, -44, 85),
        (48, 1, 0, -2, -1, -34, 0, -1),
    );
    lemma_distort_at(5, 95, 77, 68, 46, 9, 50, 7);
}

proof fn lemma_sum_13_15()
    ensures
        g2_pt(4, 46, 3, 36).add_defined(g2_pt(71, 14, 32, 68)),
        g2_pt(4, 46, 3, 36).sadd(g2_pt(71, 14, 32, 68)) == g2_pt(83, 3, 54, 52),
        sproject(g2_pt(83, 3, 54, 52)) == col_point(28),
{
    lemma_g2_add_at(
        (4, 46),
        (3, 36),
        (71, 14),
        (32, 68),
        (29, 32),
        (67, 69),
        59,
        12,
        (97, 81),
        (19, 100),
        (57, 63),
        (83, 3),
        (57, 88),
        (54, 52),
        (0, 0, 0, -1, 91, 7, 7, -9, 2, 53),
        (-96, 37, -1, 0, -58, -71, 0, 0),
    );
    lemma_distort_at(83, 3, 54, 52, 12, 1, 69, 5);
}

proof fn lemma_sum_13_16()
    ensures
        g2_pt(4, 46, 3, 36).add_defined(g2_pt(93, 48, 94, 99)),
        g2_pt(4, 46, 3, 36).sadd(g2_pt(93, 48, 94, 99)) == g2_pt(13, 79, 95, 59),
        sproject(g2_pt(13, 79, 95, 59)) == col_point(29),
{
    lemma_g2_add_at(
        (4, 46),
        (3, 36),
        (93, 48),
        (94, 99),
        (91, 63),
        (89, 2),
        47,
        43,
        (90, 15),
        (74, 66),
        (9, 72),
        (13, 79),
        (98, 95),
        (95, 59),
        (0, 0, 0, 0, 78, 20, 37, -1, 71, 69),
        (11, 96, -1, -1, 14, -31, 0, 0),
    );
    lemma_distort_at(13, 79, 95, 59, 96, 7, 79, 6);
}

proof fn lemma_sum_14_1()
    ensures
        g2_pt(42, 100, 84, 16).add_defined(g2_pt(0, 3, 9, 49)),
        g2_pt(42, 100, 84, 16).sadd(g2_pt(0, 3, 9, 49)) == g2_pt(71, 14, 32, 68),
        sproject(g2_pt(71, 14, 32, 68)) == col_point(15),
{
    lemma_g2_add_at(
        (42, 100),
        (84, 16),
        (0, 3),
        (9, 49),
        (26, 33),
        (59, 4),
        63,
        93,
        (33, 32),
        (4, 2),
        (12, 16),
        (71, 14),
        (15, 84),
        (32, 68),
        (-1, 0, -1, -1, 34, 58, 54, -4, -2, 19),
        (0, 0, -1, -1, -3, 2, -1, 0),
    );
    lemma_distort_at(71, 14, 32, 68, 9, 2, 5, 7);
}

proof fn lemma_sum_14_2()
    ensures
        g2_pt(42, 100, 84, 16).add_defined(g2_pt(38, 33, 61, 75)),
        g2_pt(42, 100, 84, 16).sadd(g2_pt(38, 33, 61, 75)) == g2_pt(93, 48, 94, 99),
        sproject(g2_pt(93, 48, 94, 99)) == col_point(16),
{
    lemma_g2_add_at(
        (42, 100),
        (84, 16),
        (38, 33),
        (61, 75),
        (78, 59),
        (97, 34),
        61,
        53,
        (91, 16),
        (94, 52),
        (72, 80),
        (93, 48),
        (77, 14),
        (94, 99),
        (-1, 0, -1, -1, 104, 32, 50, -18, 60, 65),
        (60, 96, -1, -1, -75, 22, -1, -1),
    );
    lemma_distort_at(93, 48, 94, 99, 68, 5, 74, 10);
}

proof fn lemma_sum_14_3()
    ensures
        g2_pt(42, 100, 84, 16).add_defined(g2_pt(19, 91, 88, 44)),
        g2_pt(42, 100, 84, 16).sadd(g2_pt(19, 91, 88, 44)) == g2_pt(88, 97, 86, 52),
        sproject(g2_pt(88, 97, 86, 52)) == col_point(17),
{
    lemma_g2_add_at(
        (42, 100),
        (84, 16),
        (19, 91),
        (88, 44),
        (4, 28),
        (78, 92),
        4,
        76,
        (70, 78),
        (15, 50),
        (48, 86),
        (88, 97),
        (69, 68),
        (86, 52),
        (0, 0, -1, -1, 144, 3, 58, -70, -19, 22),
        (-23, 14, -1, -2, -9, -23, -1, 0),
    );
    lemma_distort_at(88, 97, 86, 52, 48, 10, 0, 6);
}

proof fn lemma_sum_14_4()
    ensures
        g2_pt(42, 100, 84, 16).add_defined(g2_pt(5, 72, 16, 44)),
        g2_pt(42, 100, 84, 16).sadd(g2_pt(5, 72, 16, 44)) == g2_pt(47, 93, 36, 90),
        sproject(g2_pt(47, 93, 36, 90)) == col_point(18),
{
    lemma_g2_add_at(
        (42, 100),
        (84, 16),
        (5, 72),
        (16, 44),
        (33, 28),
        (64, 73),
        32,
        60,
        (2, 64),
        (92, 47),
        (94, 63),
        (47, 93),
        (19, 5),
        (36, 90),
        (-1, 0, -1, -1, 93, 19, 38, -44, -18, 21),
        (61, 85, 0, -2, -8, 4, -1, -1),
    );
    lemma_distort_at(47, 93, 36, 90, 68, 9, 27, 9);
}

proof fn lemma_sum_14_5()
    ensures
        g2_pt(42, 100, 84, 16).add_defined(g2_pt(69, 33, 71, 86)),
        g2_pt(42, 100, 84, 16).sadd(g2_pt(69, 33, 71, 86)) == g2_pt(91, 12, 80, 42),
        sproject(g2_pt(91, 12, 80, 42)) == col_point(19),
{
    lemma_g2_add_at(
        (42, 100),
        (84, 16),
        (69, 33),
        (71, 86),
        (88, 70),
        (27, 34),
        67,
        98,
        (20, 1),
        (74, 74),
        (0, 44),
        (91, 12),
        (63, 58),
        (80, 42),
        (-1, 0, 0, -1, 18, 65, 26, -33, 16, 14),
        (0, 108, -2, -1, -101, 28, -1, 0),
    );
    lemma_distort_at(91, 12, 80, 42, 9, 2, 96, 4);
}

proof fn lemma_sum_14_6()
    ensures
        g2_pt(42, 100, 84, 16).add_defined(g2_pt(57, 46, 17, 52)),
        g2_pt(42, 100, 84, 16).sadd(g2_pt(57, 46, 17, 52)) == g2_pt(88, 55, 22, 34),
        sproject(g2_pt(88, 55, 22, 34)) == col_point(20),
{
    lemma_g2_add_at(
        (42, 100),
        (84, 16),
        (57, 46),
        (17, 52),
        (34, 36),
        (15, 47),
        10,
        91,
        (52, 66),
        (99, 76),
        (86, 100),
        (88, 55),
        (5, 50),
        (22, 34),
        (-1, 0, 0, -1, 24, 9, 13, -43, -7, 40),
        (39, 148, -1, -1, -79, 9, -1, 0),
    );
    lemma_distort_at(88, 55, 22, 34, 32, 6, 59, 3);
}

proof fn lemma_sum_14_7()
    ensures
        g2_pt(42, 100, 84, 16).add_defined(g2_pt(81, 47, 93, 16)),
        g2_pt(42, 100, 84, 16).sadd(g2_pt(81, 47, 93, 16)) == g2_pt(36, 63, 55, 39),
        sproject(g2_pt(36, 63, 55, 39)) == col_point(21),
{
    lemma_g2_add_at(
        (42, 100),
        (84, 16),
        (81, 47),
        (93, 16),
        (9, 0),
        (39, 48),
        88,
        31,
        (98, 27),
        (74, 41),
        (58, 8),
        (36, 63),
        (38, 55),
        (55, 39),
        (0, 0, 0, -1, 37, 27, 11, -15, 8, 2),
        (37, 60, -1, -2, -11, 29, -1, 0),
    );
    lemma_distort_at(36, 63, 55, 39, 60, 6, 41, 4);
}

proof fn lemma_sum_14_8()
    ensures
        g2_pt(42, 100, 84, 16).add_defined(g2_pt(18, 69, 94, 11)),
        g2_pt(42, 100, 84, 16).sadd(g2_pt(18, 69, 94, 11)) == g2_pt(61, 3, 63, 78),
        sproject(g2_pt(61, 3, 63, 78)) == col_point(22),
{
    lemma_g2_add_at(
        (42, 100),
        (84, 16),
        (18, 69),
        (94, 11),
        (10, 96),
        (77, 70),
        22,
        23,
        (54, 6),
        (65, 93),
        (20, 71),
        (61, 3),
        (46, 94),
        (63, 78),
        (0, -1, -1, -1, 107, 5, 17, -16, -1, 51),
        (-44, 119, -1, -1, -102, 44, -1, 0),
    );
    lemma_distort_at(61, 3, 63, 78, 91, 0, 35, 8);
}

proof fn lemma_sum_14_9()
    ensures
        g2_pt(42, 100, 84, 16).add_defined(g2_pt(83, 80, 84, 22)),
        g2_pt(42, 100, 84, 16).sadd(g2_pt(83, 80, 84, 22)) == g2_pt(5, 76, 13, 86),
        sproject(g2_pt(5, 76, 13, 86)) == col_point(23),
{
    lemma_g2_add_at(
        (42, 100),
        (84, 16),
        (83, 80),
        (84, 22),
        (0, 6),
        (41, 81),
        61,
        53,
        (52, 50),
        (3, 9),
        (29, 54),
        (5, 76),
        (97, 1),
        (13, 86),
        (0, 0, 0, -1, 81, 32, 21, -43, -3, 3),
        (-1, 0, -1, -2, -2, 4, 0, -1),
    );
    lemma_distort_at(5, 76, 13, 86, 58, 7, 65, 8);
}

proof fn lemma_sum_14_10()
    ensures
        g2_pt(42, 100, 84, 16).add_defined(g2_pt(65, 87, 47, 11)),
        g2_pt(42, 100, 84, 16).sadd(g2_pt(65, 87, 47, 11)) == g2_pt(96, 94, 21, 63),
        sproject(g2_pt(96, 94, 21, 63)) == col_point(24),
{
    lemma_g2_add_at(
        (42, 100),
        (84, 16),
        (65, 87),
        (47, 11),
        (64, 96),
        (23, 88),
        92,
        56,
        (76, 21),
        (20, 55),
        (1, 79),
        (96, 94),
        (4, 79),
        (21, 63),
        (-1, -1, 0, -1, 81, 51, 12, -49, 28, 85),
        (-26, 21, -2, -2, -14, -29, -1, 0),
    );
    lemma_distort_at(96, 94, 21, 63, 26, 10, 45, 6);
}

proof fn lemma_sum_14_11()
    ensures
        g2_pt(42, 100, 84, 16).add_defined(g2_pt(61, 30, 84, 76)),
        g2_pt(42, 100, 84, 16).sadd(g2_pt(61, 30, 84, 76)) == g2_pt(68, 31, 10, 9),
        sproject(g2_pt(68, 31, 10, 9)) == col_point(25),
{
    lemma_g2_add_at(
        (42, 100),
        (84, 16),
        (61, 30),
        (84, 76),
        (0, 60),
        (19, 31),
        9,
        45,
        (47, 19),
        (72, 93),
        (70, 60),
        (68, 31),
        (94, 25),
        (10, 9),
        (0, 0, 0, -1, 13, 4, 8, -14, -12, 27),
        (-35, 132, -1, -1, -83, 25, 0, 0),
    );
    lemma_distort_at(68, 31, 10, 9, 75, 3, 100, 0);
}

proof fn lemma_sum_14_12()
    ensures
        g2_pt(42, 100, 84, 16).add_defined(g2_pt(29, 87, 70, 40)),
        g2_pt(42, 100, 84, 16).sadd(g2_pt(29, 87, 70, 40)) == g2_pt(31, 98, 39, 6),
        sproject(g2_pt(31, 98, 39, 6)) == col_point(26),
{
    lemma_g2_add_at(
        (42, 100),
        (84, 16),
        (29, 87),
        (70, 40),
        (87, 24),
        (88, 88),
        35,
        26,
        (66, 35),
        (54, 84),
        (1, 83),
        (31, 98),
        (22, 22),
        (39, 6),
        (-1, 0, -1, -1, 153, 9, 22, -23, 48, 45),
        (-41, 89, -1, -2, 4, 10, -1, 0),
    );
    lemma_distort_at(31, 98, 39, 6, 1, 10, 99, 0);
}

proof fn lemma_sum_14_13()
    ensures
        g2_pt(42, 100, 84, 16).add_defined(g2_pt(4, 46, 3, 36)),
        g2_pt(42, 100, 84, 16).sadd(g2_pt(4, 46, 3, 36)) == g2_pt(5, 95, 77, 68),
        sproject(g2_pt(5, 95, 77, 68)) == col_point(27),
{
    lemma_g2_add_at(
        (42, 100),
        (84, 16),
        (4, 46),
        (3, 36),
        (20, 20),
        (63, 47),
        17,
        6,
        (75, 21),
        (70, 1),
        (51, 39),
        (5, 95),
        (60, 84),
        (77, 68),
        (-1, 0, -1, -1, 61, 1, 3, -3, 10, 19),
        (48, 1, 0, -2, 25, 3, -1, 0),
    );
    lemma_distort_at(5, 95, 77, 68, 46, 9, 50, 7);
}

proof fn lemma_sum_14_14()
    ensures
        g2_pt(42, 100, 84, 16).add_defined(g2_pt(42, 100, 84, 16)),
        g2_pt(42, 100, 84, 16).sadd(g2_pt(42, 100, 84, 16)) == g2_pt(83, 3, 54, 52),
        sproject(g2_pt(83, 3, 54, 52)) == col_point(28),
{
    lemma_g2_double_at(
        (42, 100),
        (84, 16),
        (46, 17),
        (37, 51),
        (67, 32),
        59,
        12,
        (97, 20),
        (44, 31),
        (66, 1),
        (83, 3),
        (37, 68),
        (54, 52),
        (-82, 83, 1, 0, 1, 0, 54, 7, 7, -4),
        (25, 56, 9, 27, -1, -2, -48, 29, -1, 0),
    );
    assert(g2_pt(42, 100, 84, 16).sadd(g2_pt(42, 100, 84, 16)) == g2_pt(42, 100, 84, 16).sdouble());
    lemma_distort_at(83, 3, 54, 52, 12, 1, 69, 5);
}

proof fn lemma_sum_14_15()
    ensures
        g2_pt(42, 100, 84, 16).add_defined(g2_pt(71, 14, 32, 68)),
        g2_pt(42, 100, 84, 16).sadd(g2_pt(71, 14, 32, 68)) == g2_pt(13, 79, 95, 59),
        sproject(g2_pt(13, 79, 95, 59)) == col_point(29),
{
    lemma_g2_add_at(
        (42, 100),
        (84, 16),
        (71, 14),
        (32, 68),
        (49, 52),
        (29, 15),
        56,
        92,
        (42, 34),
        (88, 12),
        (25, 92),
        (13, 79),
        (78, 75),
        (95, 59),
        (-1, 0, 0, -1, 10, 51, 26, -14, 2, 38),
        (75, 20, -1, -1, 22, 21, -1, 0),
    );
    lemma_distort_at(13, 79, 95, 59, 96, 7, 79, 6);
}

proof fn lemma_sum_14_16()
    ensures
        g2_pt(42, 100, 84, 16).add_defined(g2_pt(93, 48, 94, 99)),
        g2_pt(42, 100, 84, 16).sadd(g2_pt(93, 48, 94, 99)) == g2_pt(15, 71, 91, 16),
        sproject(g2_pt(15, 71, 91, 16)) == col_point(30),
{
    lemma_g2_add_at(
        (42, 100),
        (84, 16),
        (93, 48),
        (94, 99),
        (10, 83),
        (51, 49),
        53,
        61,
        (81, 41),
        (33, 63),
        (49, 17),
        (15, 71),
        (74, 32),
        (91, 16),
        (0, 0, 0, -1, 49, 32, 30, -30, -26, 70),
        (-29, 41, -1, -2, -10, 26, -1, 0),
    );
    lemma_distort_at(15, 71, 91, 16, 18, 7, 49, 2);
}

proof fn lemma_sum_15_1()
    ensures
        g2_pt(71, 14, 32, 68).add_defined(g2_pt(0, 3, 9, 49)),
        g2_pt(71, 14, 32, 68).sadd(g2_pt(0, 3, 9, 49)) == g2_pt(93, 48, 94, 99),
        sproject(g2_pt(93, 48, 94, 99)) == col_point(16),
{
    lemma_g2_add_at(
        (71, 14),
        (32, 68),
        (0, 3),
        (9, 49),
        (78, 82),
        (30, 90),
        11,
        46,
        (67, 1),
        (94, 17),
        (63, 65),
        (93, 48),
        (25, 66),
        (94, 99),
        (-1, -1, -1, -1, 89, 5, 13, -41, 50, 55),
        (84, 31, -1, 0, -15, -36, -1, -1),
    );
    lemma_distort_at(93, 48, 94, 99, 68, 5, 74, 10);
}

proof fn lemma_sum_15_2()
    ensures
        g2_pt(71, 14, 32, 68).add_defined(g2_pt(38, 33, 61, 75)),
        g2_pt(71, 14, 32, 68).sadd(g2_pt(38, 33, 61, 75)) == g2_pt(88, 97, 86, 52),
        sproject(g2_pt(88, 97, 86, 52)) == col_point(17),
{
    lemma_g2_add_at(
        (71, 14),
        (32, 68),
        (38, 33),
        (61, 75),
        (29, 7),
        (68, 19),
        36,
        87,
        (58, 64),
        (22, 40),
        (96, 43),
        (88, 97),
        (17, 19),
        (86, 52),
        (0, 0, -1, 0, 49, 31, 58, -17, 12, 22),
        (-12, 17, -1, -1, 29, -25, -1, -1),
    );
    lemma_distort_at(88, 97, 86, 52, 48, 10, 0, 6);
}

proof fn lemma_sum_15_3()
    ensures
        g2_pt(71, 14, 32, 68).add_defined(g2_pt(19, 91, 88, 44)),
        g2_pt(71, 14, 32, 68).sadd(g2_pt(19, 91, 88, 44)) == g2_pt(47, 93, 36, 90),
        sproject(g2_pt(47, 93, 36, 90)) == col_point(18),
{
    lemma_g2_add_at(
        (71, 14),
        (32, 68),
        (19, 91),
        (88, 44),
        (56, 77),
        (49, 77),
        48,
        40,
        (41, 51),
        (86, 54),
        (36, 97),
        (47, 93),
        (68, 57),
        (36, 90),
        (0, -1, -1, 0, 82, 19, 19, -31, -17, 59),
        (44, 91, -1, -1, 62, -55, 0, -1),
    );
    lemma_distort_at(47, 93, 36, 90, 68, 9, 27, 9);
}

proof fn lemma_sum_15_4()
    ensures
        g2_pt(71, 14, 32, 68).add_defined(g2_pt(5, 72, 16, 44)),
        g2_pt(71, 14, 32, 68).sadd(g2_pt(5, 72, 16, 44)) == g2_pt(91, 12, 80, 42),
        sproject(g2_pt(91, 12, 80, 42)) == col_point(19),
{
    lemma_g2_add_at(
        (71, 14),
        (32, 68),
        (5, 72),
        (16, 44),
        (85, 77),
        (35, 58),
        44,
        62,
        (49, 40),
        (75, 2),
        (66, 98),
        (91, 12),
        (11, 9),
        (80, 42),
        (-1, -1, -1, 0, 45, 27, 21, -36, 10, 71),
        (55, 2, -1, 0, -15, 1, -1, -1),
    );
    lemma_distort_at(91, 12, 80, 42, 9, 2, 96, 4);
}

proof fn lemma_sum_15_5()
    ensures
        g2_pt(71, 14, 32, 68).add_defined(g2_pt(69, 33, 71, 86)),
        g2_pt(71, 14, 32, 68).sadd(g2_pt(69, 33, 71, 86)) == g2_pt(88, 55, 22, 34),
        sproject(g2_pt(88, 55, 22, 34)) == col_point(20),
{
    lemma_g2_add_at(
        (71, 14),
        (32, 68),
        (69, 33),
        (71, 86),
        (39, 18),
        (99, 19),
        62,
        44,
        (13, 73),
        (1, 51),
        (26, 1),
        (88, 55),
        (54, 1),
        (22, 34),
        (0, 0, -1, 0, 100, 27, 43, -9, -8, 30),
        (-26, 1, -2, -1, 20, -9, 0, -1),
    );
    lemma_distort_at(88, 55, 22, 34, 32, 6, 59, 3);
}

proof fn lemma_sum_15_6()
    ensures
        g2_pt(71, 14, 32, 68).add_defined(g2_pt(57, 46, 17, 52)),
        g2_pt(71, 14, 32, 68).sadd(g2_pt(57, 46, 17, 52)) == g2_pt(36, 63, 55, 39),
        sproject(g2_pt(36, 63, 55, 39)) == col_point(21),
{
    lemma_g2_add_at(
        (71, 14),
        (32, 68),
        (57, 46),
        (17, 52),
        (86, 85),
        (87, 32),
        8,
        38,
        (74, 97),
        (38, 88),
        (63, 22),
        (36, 63),
        (87, 6),
        (55, 39),
        (-1, -1, -1, 0, 85, 3, 32, -13, -19, 144),
        (-63, 66, -1, -1, 55, 12, 0, -1),
    );
    lemma_distort_at(36, 63, 55, 39, 60, 6, 41, 4);
}

proof fn lemma_sum_15_7()
    ensures
        g2_pt(71, 14, 32, 68).add_defined(g2_pt(81, 47, 93, 16)),
        g2_pt(71, 14, 32, 68).sadd(g2_pt(81, 47, 93, 16)) == g2_pt(61, 3, 63, 78),
        sproject(g2_pt(61, 3, 63, 78)) == col_point(22),
{
    lemma_g2_add_at(
        (71, 14),
        (32, 68),
        (81, 47),
        (93, 16),
        (61, 49),
        (10, 33),
        78,
        79,
        (83, 19),
        (92, 75),
        (11, 64),
        (61, 3),
        (95, 45),
        (63, 78),
        (0, -1, 0, 0, 11, 61, 7, -26, 40, 51),
        (28, 136, -2, 0, 0, 17, 0, -1),
    );
    lemma_distort_at(61, 3, 63, 78, 91, 0, 35, 8);
}

proof fn lemma_sum_15_8()
    ensures
        g2_pt(71, 14, 32, 68).add_defined(g2_pt(18, 69, 94, 11)),
        g2_pt(71, 14, 32, 68).sadd(g2_pt(18, 69, 94, 11)) == g2_pt(5, 76, 13, 86),
        sproject(g2_pt(5, 76, 13, 86)) == col_point(23),
{
    lemma_g2_add_at(
        (71, 14),
        (32, 68),
        (18, 69),
        (94, 11),
        (62, 44),
        (48, 55),
        77,
        21,
        (99, 57),
        (95, 12),
        (94, 58),
        (5, 76),
        (45, 53),
        (13, 86),
        (0, -1, -1, 0, 52, 16, 9, -12, 35, 78),
        (87, 22, 0, -1, 69, -51, 0, -1),
    );
    lemma_distort_at(5, 76, 13, 86, 58, 7, 65, 8);
}

proof fn lemma_sum_15_9()
    ensures
        g2_pt(71, 14, 32, 68).add_defined(g2_pt(83, 80, 84, 22)),
        g2_pt(71, 14, 32, 68).sadd(g2_pt(83, 80, 84, 22)) == g2_pt(96, 94, 21, 63),
        sproject(g2_pt(96, 94, 21, 63)) == col_point(24),
{
    lemma_g2_add_at(
        (71, 14),
        (32, 68),
        (83, 80),
        (84, 22),
        (52, 55),
        (12, 66),
        56,
        92,
        (94, 89),
        (94, 1),
        (48, 87),
        (96, 94),
        (53, 30),
        (21, 63),
        (0, -1, 0, 0, 44, 51, 10, -61, -1, 97),
        (87, 1, -2, -1, -23, -75, 0, -1),
    );
    lemma_distort_at(96, 94, 21, 63, 26, 10, 45, 6);
}

proof fn lemma_sum_15_10()
    ensures
        g2_pt(71, 14, 32, 68).add_defined(g2_pt(65, 87, 47, 11)),
        g2_pt(71, 14, 32, 68).sadd(g2_pt(65, 87, 47, 11)) == g2_pt(68, 31, 10, 9),
        sproject(g2_pt(68, 31, 10, 9)) == col_point(25),
{
    lemma_g2_add_at(
        (71, 14),
        (32, 68),
        (65, 87),
        (47, 11),
        (15, 44),
        (95, 73),
        12,
        59,
        (50, 36),
        (75, 13),
        (2, 31),
        (68, 31),
        (42, 77),
        (10, 9),
        (0, -1, -1, 0, 142, 7, 55, -43, -9, 27),
        (54, 19, -2, -1, 4, -13, 0, 0),
    );
    lemma_distort_at(68, 31, 10, 9, 75, 3, 100, 0);
}

proof fn lemma_sum_15_11()
    ensures
        g2_pt(71, 14, 32, 68).add_defined(g2_pt(61, 30, 84, 76)),
        g2_pt(71, 14, 32, 68).sadd(g2_pt(61, 30, 84, 76)) == g2_pt(31, 98, 39, 6),
        sproject(g2_pt(31, 98, 39, 6)) == col_point(26),
{
    lemma_g2_add_at(
        (71, 14),
        (32, 68),
        (61, 30),
        (84, 76),
        (52, 8),
        (91, 16),
        53,
        61,
        (97, 34),
        (25, 19),
        (62, 41),
        (31, 98),
        (71, 74),
        (39, 6),
        (0, 0, -1, 0, 84, 32, 54, -10, 47, 25),
        (2, 9, -1, -1, 25, -14, 0, 0),
    );
    lemma_distort_at(31, 98, 39, 6, 1, 10, 99, 0);
}

proof fn lemma_sum_15_12()
    ensures
        g2_pt(71, 14, 32, 68).add_defined(g2_pt(29, 87, 70, 40)),
        g2_pt(71, 14, 32, 68).sadd(g2_pt(29, 87, 70, 40)) == g2_pt(5, 95, 77, 68),
        sproject(g2_pt(5, 95, 77, 68)) == col_point(27),
{
    lemma_g2_add_at(
        (71, 14),
        (32, 68),
        (29, 87),
        (70, 40),
        (38, 73),
        (59, 73),
        23,
        22,
        (86, 10),
        (13, 93),
        (4, 95),
        (5, 95),
        (8, 35),
        (77, 68),
        (0, -1, -1, 0, 87, 5, 12, -16, 25, 65),
        (-84, 23, -1, -1, 83, 50, -1, -1),
    );
    lemma_distort_at(5, 95, 77, 68, 46, 9, 50, 7);
}

proof fn lemma_sum_15_13()
    ensures
        g2_pt(71, 14, 32, 68).add_defined(g2_pt(4, 46, 3, 36)),
        g2_pt(71, 14, 32, 68).sadd(g2_pt(4, 46, 3, 36)) == g2_pt(83, 3, 54, 52),
        sproject(g2_pt(83, 3, 54, 52)) == col_point(28),
{
    lemma_g2_add_at(
        (71, 14),
        (32, 68),
        (4, 46),
        (3, 36),
        (72, 69),
        (34, 32),
        59,
        12,
        (4, 20),
        (19, 100),
        (57, 63),
        (83, 3),
        (86, 19),
        (54, 52),
        (-1, -1, -1, 0, 21, 7, 4, -4, -11, 16),
        (-96, 37, -1, 0, -14, -10, 0, -1),
    );
    lemma_distort_at(83, 3, 54, 52, 12, 1, 69, 5);
}

proof fn lemma_sum_15_14()
    ensures
        g2_pt(71, 14, 32, 68).add_defined(g2_pt(42, 100, 84, 16)),
        g2_pt(71, 14, 32, 68).sadd(g2_pt(42, 100, 84, 16)) == g2_pt(13, 79, 95, 59),
        sproject(g2_pt(13, 79, 95, 59)) == col_point(29),
{
    lemma_g2_add_at(
        (71, 14),
        (32, 68),
        (42, 100),
        (84, 16),
        (52, 49),
        (72, 86),
        56,
        92,
        (59, 67),
        (88, 12),
        (25, 92),
        (13, 79),
        (26, 26),
        (95, 59),
        (0, -1, -1, 0, 124, 51, 65, -79, -3, 63),
        (75, 20, -1, -1, 58, -50, -1, -1),
    );
    lemma_distort_at(13, 79, 95, 59, 96, 7, 79, 6);
}

proof fn lemma_sum_15_15()
    ensures
        g2_pt(71, 14, 32, 68).add_defined(g2_pt(71, 14, 32, 68)),
        g2_pt(71, 14, 32, 68).sadd(g2_pt(71, 14, 32, 68)) == g2_pt(15, 71, 91, 16),
        sproject(g2_pt(15, 71, 91, 16)) == col_point(30),
{
    lemma_g2_double_at(
        (71, 14),
        (32, 68),
        (98, 69),
        (92, 5),
        (64, 35),
        69,
        41,
        (99, 80),
        (22, 78),
        (56, 99),
        (15, 71),
        (22, 84),
        (91, 16),
        (47, 19, 2, 2, 0, 1, 52, 28, 25, -15),
        (86, 77, -56, 33, -1, 0, 56, 30, -1, 0),
    );
    assert(g2_pt(71, 14, 32, 68).sadd(g2_pt(71, 14, 32, 68)) == g2_pt(71, 14, 32, 68).sdouble());
    lemma_distort_at(15, 71, 91, 16, 18, 7, 49, 2);
}

proof fn lemma_sum_15_16()
    ensures
        g2_pt(71, 14, 32, 68).add_defined(g2_pt(93, 48, 94, 99)),
        g2_pt(71, 14, 32, 68).sadd(g2_pt(93, 48, 94, 99)) == g2_pt(82, 14, 97, 89),
        sproject(g2_pt(82, 14, 97, 89)) == col_point(31),
{
    lemma_g2_add_at(
        (71, 14),
        (32, 68),
        (93, 48),
        (94, 99),
        (62, 31),
        (22, 34),
        24,
        80,
        (43, 7),
        (25, 50),
        (44, 76),
        (82, 14),
        (28, 56),
        (97, 89),
        (0, 0, 0, 0, 16, 19, 17, -27, 24, 17),
        (-19, 24, -2, 0, -3, -6, -1, -1),
    );
    lemma_distort_at(82, 14, 97, 89, 20, 2, 78, 9);
}

proof fn lemma_sum_16_1()
    ensures
        g2_pt(93, 48, 94, 99).add_defined(g2_pt(0, 3, 9, 49)),
        g2_pt(93, 48, 94, 99).sadd(g2_pt(0, 3, 9, 49)) == g2_pt(88, 97, 86, 52),
        sproject(g2_pt(88, 97, 86, 52)) == col_point(17),
{
    lemma_g2_add_at(
        (93, 48),
        (94, 99),
        (0, 3),
        (9, 49),
        (16, 51),
        (8, 56),
        69,
        41,
        (25, 27),
        (33, 91),
        (80, 47),
        (88, 97),
        (79, 50),
        (86, 52),
        (-1, -1, -1, -1, 31, 28, 3, -23, -10, 16),
        (-72, 59, -1, -1, 45, -12, -1, -1),
    );
    lemma_distort_at(88, 97, 86, 52, 48, 10, 0, 6);
}

proof fn lemma_sum_16_2()
    ensures
        g2_pt(93, 48, 94, 99).add_defined(g2_pt(38, 33, 61, 75)),
        g2_pt(93, 48, 94, 99).sadd(g2_pt(38, 33, 61, 75)) == g2_pt(47, 93, 36, 90),
        sproject(g2_pt(47, 93, 36, 90)) == col_point(18),
{
    lemma_g2_add_at(
        (93, 48),
        (94, 99),
        (38, 33),
        (61, 75),
        (68, 77),
        (46, 86),
        18,
        73,
        (25, 85),
        (3, 29),
        (77, 73),
        (47, 93),
        (29, 88),
        (36, 90),
        (-1, -1, -1, -1, 94, 13, 33, -63, -48, 76),
        (-9, 1, -1, -1, 14, 11, -1, -1),
    );
    lemma_distort_at(47, 93, 36, 90, 68, 9, 27, 9);
}

proof fn lemma_sum_16_3()
    ensures
        g2_pt(93, 48, 94, 99).add_defined(g2_pt(19, 91, 88, 44)),
        g2_pt(93, 48, 94, 99).sadd(g2_pt(19, 91, 88, 44)) == g2_pt(91, 12, 80, 42),
        sproject(g2_pt(91, 12, 80, 42)) == col_point(19),
{
    lemma_g2_add_at(
        (93, 48),
        (94, 99),
        (19, 91),
        (88, 44),
        (95, 46),
        (27, 43),
        53,
        61,
        (31, 3),
        (80, 95),
        (1, 50),
        (91, 12),
        (73, 40),
        (80, 42),
        (-1, -1, -1, 0, 25, 32, 16, -26, 27, 16),
        (-26, 150, -2, -1, -33, 30, -1, -1),
    );
    lemma_distort_at(91, 12, 80, 42, 9, 2, 96, 4);
}

proof fn lemma_sum_16_4()
    ensures
        g2_pt(93, 48, 94, 99).add_defined(g2_pt(5, 72, 16, 44)),
        g2_pt(93, 48, 94, 99).sadd(g2_pt(5, 72, 16, 44)) == g2_pt(88, 55, 22, 34),
        sproject(g2_pt(88, 55, 22, 34)) == col_point(20),
{
    lemma_g2_add_at(
        (93, 48),
        (94, 99),
        (5, 72),
        (16, 44),
        (23, 46),
        (13, 24),
        38,
        8,
        (3, 10),
        (13, 65),
        (85, 74),
        (88, 55),
        (15, 32),
        (22, 34),
        (-1, -1, -1, 0, 7, 3, 1, -2, -4, 3),
        (-41, 16, -1, -1, 5, 2, -1, -1),
    );
    lemma_distort_at(88, 55, 22, 34, 32, 6, 59, 3);
}

proof fn lemma_sum_16_5()
    ensures
        g2_pt(93, 48, 94, 99).add_defined(g2_pt(69, 33, 71, 86)),
        g2_pt(93, 48, 94, 99).sadd(g2_pt(69, 33, 71, 86)) == g2_pt(36, 63, 55, 39),
        sproject(g2_pt(36, 63, 55, 39)) == col_point(21),
{
    lemma_g2_add_at(
        (93, 48),
        (94, 99),
        (69, 33),
        (71, 86),
        (78, 88),
        (77, 86),
        94,
        72,
        (90, 70),
        (52, 48),
        (97, 43),
        (36, 63),
        (48, 37),
        (55, 39),
        (-1, -1, -1, -1, 131, 67, 54, -62, 8, 132),
        (3, 49, -1, -1, 36, 19, -1, -1),
    );
    lemma_distort_at(36, 63, 55, 39, 60, 6, 41, 4);
}

proof fn lemma_sum_16_6()
    ensures
        g2_pt(93, 48, 94, 99).add_defined(g2_pt(57, 46, 17, 52)),
        g2_pt(93, 48, 94, 99).sadd(g2_pt(57, 46, 17, 52)) == g2_pt(61, 3, 63, 78),
        sproject(g2_pt(61, 3, 63, 78)) == col_point(22),
{
    lemma_g2_add_at(
        (93, 48),
        (94, 99),
        (57, 46),
        (17, 52),
        (24, 54),
        (65, 99),
        88,
        31,
        (96, 62),
        (67, 6),
        (9, 97),
        (61, 3),
        (56, 76),
        (63, 78),
        (-1, -1, -1, -1, 138, 27, 19, -31, -11, 66),
        (44, 7, -2, 0, 18, 31, -1, -1),
    );
    lemma_distort_at(61, 3, 63, 78, 91, 0, 35, 8);
}

proof fn lemma_sum_16_7()
    ensures
        g2_pt(93, 48, 94, 99).add_defined(g2_pt(81, 47, 93, 16)),
        g2_pt(93, 48, 94, 99).sadd(g2_pt(81, 47, 93, 16)) == g2_pt(5, 76, 13, 86),
        sproject(g2_pt(5, 76, 13, 86)) == col_point(23),
{
    lemma_g2_add_at(
        (93, 48),
        (94, 99),
        (81, 47),
        (93, 16),
        (100, 18),
        (89, 100),
        44,
        62,
        (64, 62),
        (32, 80),
        (78, 70),
        (5, 76),
        (6, 84),
        (13, 86),
        (-1, -1, -1, -1, 177, 27, 54, -62, 52, 72),
        (-54, 50, -1, -1, 50, 60, -1, -1),
    );
    lemma_distort_at(5, 76, 13, 86, 58, 7, 65, 8);
}

proof fn lemma_sum_16_8()
    ensures
        g2_pt(93, 48, 94, 99).add_defined(g2_pt(18, 69, 94, 11)),
        g2_pt(93, 48, 94, 99).sadd(g2_pt(18, 69, 94, 11)) == g2_pt(96, 94, 21, 63),
        sproject(g2_pt(96, 94, 21, 63)) == col_point(24),
{
    lemma_g2_add_at(
        (93, 48),
        (94, 99),
        (18, 69),
        (94, 11),
        (0, 13),
        (26, 21),
        6,
        17,
        (38, 47),
        (96, 90),
        (5, 9),
        (96, 94),
        (14, 61),
        (21, 63),
        (0, -1, -1, 0, 11, 1, 4, -4, -7, 4),
        (11, 171, -2, -2, 38, -47, -1, -1),
    );
    lemma_distort_at(96, 94, 21, 63, 26, 10, 45, 6);
}

proof fn lemma_sum_16_9()
    ensures
        g2_pt(93, 48, 94, 99).add_defined(g2_pt(83, 80, 84, 22)),
        g2_pt(93, 48, 94, 99).sadd(g2_pt(83, 80, 84, 22)) == g2_pt(68, 31, 10, 9),
        sproject(g2_pt(68, 31, 10, 9)) == col_point(25),
{
    lemma_g2_add_at(
        (93, 48),
        (94, 99),
        (83, 80),
        (84, 22),
        (91, 24),
        (91, 32),
        13,
        70,
        (7, 83),
        (59, 45),
        (42, 58),
        (68, 31),
        (3, 7),
        (10, 9),
        (-1, -1, -1, 0, 92, 9, 63, -23, -14, 76),
        (14, 52, -2, -1, 7, 21, -1, -1),
    );
    lemma_distort_at(68, 31, 10, 9, 75, 3, 100, 0);
}

proof fn lemma_sum_16_10()
    ensures
        g2_pt(93, 48, 94, 99).add_defined(g2_pt(65, 87, 47, 11)),
        g2_pt(93, 48, 94, 99).sadd(g2_pt(65, 87, 47, 11)) == g2_pt(31, 98, 39, 6),
        sproject(g2_pt(31, 98, 39, 6)) == col_point(26),
{
    lemma_g2_add_at(
        (93, 48),
        (94, 99),
        (65, 87),
        (47, 11),
        (54, 13),
        (73, 39),
        83,
        28,
        (24, 19),
        (39, 25),
        (88, 31),
        (31, 98),
        (32, 4),
        (39, 6),
        (-1, -1, -1, 0, 67, 23, 20, -11, 10, 13),
        (8, 19, -1, -2, 36, -4, -1, -1),
    );
    lemma_distort_at(31, 98, 39, 6, 1, 10, 99, 0);
}

proof fn lemma_sum_16_11()
    ensures
        g2_pt(93, 48, 94, 99).add_defined(g2_pt(61, 30, 84, 76)),
        g2_pt(93, 48, 94, 99).sadd(g2_pt(61, 30, 84, 76)) == g2_pt(5, 95, 77, 68),
        sproject(g2_pt(5, 95, 77, 68)) == col_point(27),
{
    lemma_g2_add_at(
        (93, 48),
        (94, 99),
        (61, 30),
        (84, 76),
        (91, 78),
        (69, 83),
        35,
        26,
        (77, 64),
        (96, 13),
        (58, 72),
        (5, 95),
        (70, 66),
        (77, 68),
        (-1, -1, -1, -1, 115, 9, 17, -22, 19, 117),
        (89, 24, -1, -1, 89, -34, -1, -1),
    );
    lemma_distort_at(5, 95, 77, 68, 46, 9, 50, 7);
}

proof fn lemma_sum_16_12()
    ensures
        g2_pt(93, 48, 94, 99).add_defined(g2_pt(29, 87, 70, 40)),
        g2_pt(93, 48, 94, 99).sadd(g2_pt(29, 87, 70, 40)) == g2_pt(83, 3, 54, 52),
        sproject(g2_pt(83, 3, 54, 52)) == col_point(28),
{
    lemma_g2_add_at(
        (93, 48),
        (94, 99),
        (29, 87),
        (70, 40),
        (77, 42),
        (37, 39),
        62,
        44,
        (12, 1),
        (74, 76),
        (3, 37),
        (83, 3),
        (47, 50),
        (54, 52),
        (-1, -1, -1, 0, 28, 27, 16, -17, 8, 5),
        (-3, 111, -2, -1, -27, 40, -1, -1),
    );
    lemma_distort_at(83, 3, 54, 52, 12, 1, 69, 5);
}

proof fn lemma_sum_16_13()
    ensures
        g2_pt(93, 48, 94, 99).add_defined(g2_pt(4, 46, 3, 36)),
        g2_pt(93, 48, 94, 99).sadd(g2_pt(4, 46, 3, 36)) == g2_pt(13, 79, 95, 59),
        sproject(g2_pt(13, 79, 95, 59)) == col_point(29),
{
    lemma_g2_add_at(
        (93, 48),
        (94, 99),
        (4, 46),
        (3, 36),
        (10, 38),
        (12, 99),
        47,
        43,
        (11, 86),
        (74, 66),
        (9, 72),
        (13, 79),
        (88, 57),
        (95, 59),
        (-1, -1, -1, -1, 98, 20, 5, -43, -32, 12),
        (11, 96, -1, -1, 78, 29, -1, -1),
    );
    lemma_distort_at(13, 79, 95, 59, 96, 7, 79, 6);
}

proof fn lemma_sum_16_14()
    ensures
        g2_pt(93, 48, 94, 99).add_defined(g2_pt(42, 100, 84, 16)),
        g2_pt(93, 48, 94, 99).sadd(g2_pt(42, 100, 84, 16)) == g2_pt(15, 71, 91, 16),
        sproject(g2_pt(15, 71, 91, 16)) == col_point(30),
{
    lemma_g2_add_at(
        (93, 48),
        (94, 99),
        (42, 100),
        (84, 16),
        (91, 18),
        (50, 52),
        53,
        61,
        (20, 60),
        (33, 63),
        (49, 17),
        (15, 71),
        (84, 14),
        (91, 16),
        (-1, -1, -1, 0, 51, 32, 30, -32, 7, 57),
        (-29, 41, -1, -2, 39, 41, -1, -1),
    );
    lemma_distort_at(15, 71, 91, 16, 18, 7, 49, 2);
}

proof fn lemma_sum_16_15()
    ensures
        g2_pt(93, 48, 94, 99).add_defined(g2_pt(71, 14, 32, 68)),
        g2_pt(93, 48, 94, 99).sadd(g2_pt(71, 14, 32, 68)) == g2_pt(82, 14, 97, 89),
        sproject(g2_pt(82, 14, 97, 89)) == col_point(31),
{
    lemma_g2_add_at(
        (93, 48),
        (94, 99),
        (71, 14),
        (32, 68),
        (39, 70),
        (79, 67),
        24,
        80,
        (58, 94),
        (25, 50),
        (44, 76),
        (82, 14),
        (90, 87),
        (97, 89),
        (-1, -1, -1, -1, 106, 19, 62, -54, -43, 76),
        (-19, 24, -2, 0, -15, 13, -1, -1),
    );
    lemma_distort_at(82, 14, 97, 89, 20, 2, 78, 9);
}

proof fn lemma_sum_16_16()
    ensures
        g2_pt(93, 48, 94, 99).add_defined(g2_pt(93, 48, 94, 99)),
        g2_pt(93, 48, 94, 99).sadd(g2_pt(93, 48, 94, 99)) == g2_pt(18, 35, 17, 99),
        sproject(g2_pt(18, 35, 17, 99)) == col_point(32),
{
    lemma_g2_double_at(
        (93, 48),
        (94, 99),
        (83, 40),
        (47, 19),
        (87, 97),
        10,
        91,
        (39, 61),
        (68, 73),
        (2, 30),
        (18, 35),
        (10, 97),
        (17, 99),
        (62, 88, 2, 1, 1, 1, 168, 9, 78, -88),
        (6, 35, -7, 98, -2, -1, 41, 62, -1, -1),
    );
    assert(g2_pt(93, 48, 94, 99).sadd(g2_pt(93, 48, 94, 99)) == g2_pt(93, 48, 94, 99).sdouble());
    lemma_distort_at(18, 35, 17, 99, 65, 3, 98, 9);
}

#[verifier::spinoff_prover]
proof fn lemma_h_sum_row_0(c: nat)
    requires
        c < 17,
    ensures
        G2Point::sgenerator().smul(0).add_defined(G2Point::sgenerator().smul(c)),
        sproject(G2Point::sgenerator().smul(0).sadd(G2Point::sgenerator().smul(c))) == col_point(0 + c),
        (G2Point::sgenerator().smul(0).sadd(G2Point::sgenerator().smul(c)) == G2Point::Infinity) <==> 0 + c == 0,
{
    crate::g2_multiples::lemma_multiple_0_value();
    if c == 0 {
        crate::g2_multiples::lemma_multiple_0_value();
    } else if c == 1 {
        crate::g2_multiples::lemma_multiple_1_value();
        lemma_h_multiple(1);
    } else if c == 2 {
        crate::g2_multiples::lemma_multiple_2_value();
        lemma_h_multiple(2);
    } else if c == 3 {
        crate::g2_multiples::lemma_multiple_3_value();
        lemma_h_multiple(3);
    } else if c == 4 {
        crate::g2_multiples::lemma_multiple_4_value();
        lemma_h_multiple(4);
    } else if c == 5 {
        crate::g2_multiples::lemma_multiple_5_value();
        lemma_h_multiple(5);
    } else if c == 6 {
        crate::g2_multiples::lemma_multiple_6_value();
        lemma_h_multiple(6);
    } else if c == 7 {
        crate::g2_multiples::lemma_multiple_7_value();
        lemma_h_multiple(7);
    } else if c == 8 {
        crate::g2_multiples::lemma_multiple_8_value();
        lemma_h_multiple(8);
    } else if c == 9 {
        crate::g2_multiples::lemma_multiple_9_value();
        lemma_h_multiple(9);
    } else if c == 10 {
        crate::g2_multiples::lemma_multiple_10_value();
        lemma_h_multiple(10);
    } else if c == 11 {
        crate::g2_multiples::lemma_multiple_11_value();
        lemma_h_multiple(11);
    } else if c == 12 {
        crate::g2_multiples::lemma_multiple_12_value();
        lemma_h_multiple(12);
    } else if c == 13 {
        crate::g2_multiples::lemma_multiple_13_value();
        lemma_h_multiple(13);
    } else if c == 14 {
        crate::g2_multiples::lemma_multiple_14_value();
        lemma_h_multiple(14);
    } else if c == 15 {
        crate::g2_multiples::lemma_multiple_15_value();
        lemma_h_multiple(15);
    } else if c == 16 {
        crate::g2_multiples::lemma_multiple_16_value();
        lemma_h_multiple(16);
    }
}

#[verifier::spinoff_prover]
proof fn lemma_h_sum_row_1(c: nat)
    requires
        c < 17,
    ensures
        G2Point::sgenerator().smul(1).add_defined(G2Point::sgenerator().smul(c)),
        sproject(G2Point::sgenerator().smul(1).sadd(G2Point::sgenerator().smul(c))) == col_point(1 + c),
        (G2Point::sgenerator().smul(1).sadd(G2Point::sgenerator().smul(c)) == G2Point::Infinity) <==> 1 + c == 0,
{
    crate::g2_multiples::lemma_multiple_1_value();
    if c == 0 {
        crate::g2_multiples::lemma_multiple_0_value();
        lemma_h_multiple(1);
    } else if c == 1 {
        crate::g2_multiples::lemma_multiple_1_value();
        lemma_sum_1_1();
    } else if c == 2 {
        crate::g2_multiples::lemma_multiple_2_value();
        lemma_sum_1_2();
    } else if c == 3 {
        crate::g2_multiples::lemma_multiple_3_value();
        lemma_sum_1_3();
    } else if c == 4 {
        crate::g2_multiples::lemma_multiple_4_value();
        lemma_sum_1_4();
    } else if c == 5 {
        crate::g2_multiples::lemma_multiple_5_value();
        lemma_sum_1_5();
    } else if c == 6 {
        crate::g2_multiples::lemma_multiple_6_value();
        lemma_sum_1_6();
    } else if c == 7 {
        crate::g2_multiples::lemma_multiple_7_value();
        lemma_sum_1_7();
    } else if c == 8 {
        crate::g2_multiples::lemma_multiple_8_value();
        lemma_sum_1_8();
    } else if c == 9 {
        crate::g2_multiples::lemma_multiple_9_value();
        lemma_sum_1_9();
    } else if c == 10 {
        crate::g2_multiples::lemma_multiple_10_value();
        lemma_sum_1_10();
    } else if c == 11 {
        crate::g2_multiples::lemma_multiple_11_value();
        lemma_sum_1_11();
    } else if c == 12 {
        crate::g2_multiples::lemma_multiple_12_value();
        lemma_sum_1_12();
    } else if c == 13 {
        crate::g2_multiples::lemma_multiple_13_value();
        lemma_sum_1_13();
    } else if c == 14 {
        crate::g2_multiples::lemma_multiple_14_value();
        lemma_sum_1_14();
    } else if c == 15 {
        crate::g2_multiples::lemma_multiple_15_value();
        lemma_sum_1_15();
    } else if c == 16 {
        crate::g2_multiples::lemma_multiple_16_value();
        lemma_sum_1_16();
    }
}

#[verifier::spinoff_prover]
proof fn lemma_h_sum_row_2(c: nat)
    requires
        c < 17,
    ensures
        G2Point::sgenerator().smul(2).add_defined(G2Point::sgenerator().smul(c)),
        sproject(G2Point::sgenerator().smul(2).sadd(G2Point::sgenerator().smul(c))) == col_point(2 + c),
        (G2Point::sgenerator().smul(2).sadd(G2Point::sgenerator().smul(c)) == G2Point::Infinity) <==> 2 + c == 0,
{
    crate::g2_multiples::lemma_multiple_2_value();
    if c == 0 {
        crate::g2_multiples::lemma_multiple_0_value();
        lemma_h_multiple(2);
    } else if c == 1 {
        crate::g2_multiples::lemma_multiple_1_value();
        lemma_sum_2_1();
    } else if c == 2 {
        crate::g2_multiples::lemma_multiple_2_value();
        lemma_sum_2_2();
    } else if c == 3 {
        crate::g2_multiples::lemma_multiple_3_value();
        lemma_sum_2_3();
    } else if c == 4 {
        crate::g2_multiples::lemma_multiple_4_value();
        lemma_sum_2_4();
    } else if c == 5 {
        crate::g2_multiples::lemma_multiple_5_value();
        lemma_sum_2_5();
    } else if c == 6 {
        crate::g2_multiples::lemma_multiple_6_value();
        lemma_sum_2_6();
    } else if c == 7 {
        crate::g2_multiples::lemma_multiple_7_value();
        lemma_sum_2_7();
    } else if c == 8 {
        crate::g2_multiples::lemma_multiple_8_value();
        lemma_sum_2_8();
    } else if c == 9 {
        crate::g2_multiples::lemma_multiple_9_value();
        lemma_sum_2_9();
    } else if c == 10 {
        crate::g2_multiples::lemma_multiple_10_value();
        lemma_sum_2_10();
    } else if c == 11 {
        crate::g2_multiples::lemma_multiple_11_value();
        lemma_sum_2_11();
    } else if c == 12 {
        crate::g2_multiples::lemma_multiple_12_value();
        lemma_sum_2_12();
    } else if c == 13 {
        crate::g2_multiples::lemma_multiple_13_value();
        lemma_sum_2_13();
    } else if c == 14 {
        crate::g2_multiples::lemma_multiple_14_value();
        lemma_sum_2_14();
    } else if c == 15 {
        crate::g2_multiples::lemma_multiple_15_value();
        lemma_sum_2_15();
    } else if c == 16 {
        crate::g2_multiples::lemma_multiple_16_value();
        lemma_sum_2_16();
    }
}

#[verifier::spinoff_prover]
proof fn lemma_h_sum_row_3(c: nat)
    requires
        c < 17,
    ensures
        G2Point::sgenerator().smul(3).add_defined(G2Point::sgenerator().smul(c)),
        sproject(G2Point::sgenerator().smul(3).sadd(G2Point::sgenerator().smul(c))) == col_point(3 + c),
        (G2Point::sgenerator().smul(3).sadd(G2Point::sgenerator().smul(c)) == G2Point::Infinity) <==> 3 + c == 0,
{
    crate::g2_multiples::lemma_multiple_3_value();
    if c == 0 {
        crate::g2_multiples::lemma_multiple_0_value();
        lemma_h_multiple(3);
    } else if c == 1 {
        crate::g2_multiples::lemma_multiple_1_value();
        lemma_sum_3_1();
    } else if c == 2 {
        crate::g2_multiples::lemma_multiple_2_value();
        lemma_sum_3_2();
    } else if c == 3 {
        crate::g2_multiples::lemma_multiple_3_value();
        lemma_sum_3_3();
    } else if c == 4 {
        crate::g2_multiples::lemma_multiple_4_value();
        lemma_sum_3_4();
    } else if c == 5 {
        crate::g2_multiples::lemma_multiple_5_value();
        lemma_sum_3_5();
    } else if c == 6 {
        crate::g2_multiples::lemma_multiple_6_value();
        lemma_sum_3_6();
    } else if c == 7 {
        crate::g2_multiples::lemma_multiple_7_value();
        lemma_sum_3_7();
    } else if c == 8 {
        crate::g2_multiples::lemma_multiple_8_value();
        lemma_sum_3_8();
    } else if c == 9 {
        crate::g2_multiples::lemma_multiple_9_value();
        lemma_sum_3_9();
    } else if c == 10 {
        crate::g2_multiples::lemma_multiple_10_value();
        lemma_sum_3_10();
    } else if c == 11 {
        crate::g2_multiples::lemma_multiple_11_value();
        lemma_sum_3_11();
    } else if c == 12 {
        crate::g2_multiples::lemma_multiple_12_value();
        lemma_sum_3_12();
    } else if c == 13 {
        crate::g2_multiples::lemma_multiple_13_value();
        lemma_sum_3_13();
    } else if c == 14 {
        crate::g2_multiples::lemma_multiple_14_value();
        lemma_sum_3_14();
    } else if c == 15 {
        crate::g2_multiples::lemma_multiple_15_value();
        lemma_sum_3_15();
    } else if c == 16 {
        crate::g2_multiples::lemma_multiple_16_value();
        lemma_sum_3_16();
    }
}

#[verifier::spinoff_prover]
proof fn lemma_h_sum_row_4(c: nat)
    requires
        c < 17,
    ensures
        G2Point::sgenerator().smul(4).add_defined(G2Point::sgenerator().smul(c)),
        sproject(G2Point::sgenerator().smul(4).sadd(G2Point::sgenerator().smul(c))) == col_point(4 + c),
        (G2Point::sgenerator().smul(4).sadd(G2Point::sgenerator().smul(c)) == G2Point::Infinity) <==> 4 + c == 0,
{
    crate::g2_multiples::lemma_multiple_4_value();
    if c == 0 {
        crate::g2_multiples::lemma_multiple_0_value();
        lemma_h_multiple(4);
    } else if c == 1 {
        crate::g2_multiples::lemma_multiple_1_value();
        lemma_sum_4_1();
    } else if c == 2 {
        crate::g2_multiples::lemma_multiple_2_value();
        lemma_sum_4_2();
    } else if c == 3 {
        crate::g2_multiples::lemma_multiple_3_value();
        lemma_sum_4_3();
    } else if c == 4 {
        crate::g2_multiples::lemma_multiple_4_value();
        lemma_sum_4_4();
    } else if c == 5 {
        crate::g2_multiples::lemma_multiple_5_value();
        lemma_sum_4_5();
    } else if c == 6 {
        crate::g2_multiples::lemma_multiple_6_value();
        lemma_sum_4_6();
    } else if c == 7 {
        crate::g2_multiples::lemma_multiple_7_value();
        lemma_sum_4_7();
    } else if c == 8 {
        crate::g2_multiples::lemma_multiple_8_value();
        lemma_sum_4_8();
    } else if c == 9 {
        crate::g2_multiples::lemma_multiple_9_value();
        lemma_sum_4_9();
    } else if c == 10 {
        crate::g2_multiples::lemma_multiple_10_value();
        lemma_sum_4_10();
    } else if c == 11 {
        crate::g2_multiples::lemma_multiple_11_value();
        lemma_sum_4_11();
    } else if c == 12 {
        crate::g2_multiples::lemma_multiple_12_value();
        lemma_sum_4_12();
    } else if c == 13 {
        crate::g2_multiples::lemma_multiple_13_value();
        lemma_sum_4_13();
    } else if c == 14 {
        crate::g2_multiples::lemma_multiple_14_value();
        lemma_sum_4_14();
    } else if c == 15 {
        crate::g2_multiples::lemma_multiple_15_value();
        lemma_sum_4_15();
    } else if c == 16 {
        crate::g2_multiples::lemma_multiple_16_value();
        lemma_sum_4_16();
    }
}

#[verifier::spinoff_prover]
proof fn lemma_h_sum_row_5(c: nat)
    requires
        c < 17,
    ensures
        G2Point::sgenerator().smul(5).add_defined(G2Point::sgenerator().smul(c)),
        sproject(G2Point::sgenerator().smul(5).sadd(G2Point::sgenerator().smul(c))) == col_point(5 + c),
        (G2Point::sgenerator().smul(5).sadd(G2Point::sgenerator().smul(c)) == G2Point::Infinity) <==> 5 + c == 0,
{
    crate::g2_multiples::lemma_multiple_5_value();
    if c == 0 {
        crate::g2_multiples::lemma_multiple_0_value();
        lemma_h_multiple(5);
    } else if c == 1 {
        crate::g2_multiples::lemma_multiple_1_value();
        lemma_sum_5_1();
    } else if c == 2 {
        crate::g2_multiples::lemma_multiple_2_value();
        lemma_sum_5_2();
    } else if c == 3 {
        crate::g2_multiples::lemma_multiple_3_value();
        lemma_sum_5_3();
    } else if c == 4 {
        crate::g2_multiples::lemma_multiple_4_value();
        lemma_sum_5_4();
    } else if c == 5 {
        crate::g2_multiples::lemma_multiple_5_value();
        lemma_sum_5_5();
    } else if c == 6 {
        crate::g2_multiples::lemma_multiple_6_value();
        lemma_sum_5_6();
    } else if c == 7 {
        crate::g2_multiples::lemma_multiple_7_value();
        lemma_sum_5_7();
    } else if c == 8 {
        crate::g2_multiples::lemma_multiple_8_value();
        lemma_sum_5_8();
    } else if c == 9 {
        crate::g2_multiples::lemma_multiple_9_value();
        lemma_sum_5_9();
    } else if c == 10 {
        crate::g2_multiples::lemma_multiple_10_value();
        lemma_sum_5_10();
    } else if c == 11 {
        crate::g2_multiples::lemma_multiple_11_value();
        lemma_sum_5_11();
    } else if c == 12 {
        crate::g2_multiples::lemma_multiple_12_value();
        lemma_sum_5_12();
    } else if c == 13 {
        crate::g2_multiples::lemma_multiple_13_value();
        lemma_sum_5_13();
    } else if c == 14 {
        crate::g2_multiples::lemma_multiple_14_value();
        lemma_sum_5_14();
    } else if c == 15 {
        crate::g2_multiples::lemma_multiple_15_value();
        lemma_sum_5_15();
    } else if c == 16 {
        crate::g2_multiples::lemma_multiple_16_value();
        lemma_sum_5_16();
    }
}

#[verifier::spinoff_prover]
proof fn lemma_h_sum_row_6(c: nat)
    requires
        c < 17,
    ensures
        G2Point::sgenerator().smul(6).add_defined(G2Point::sgenerator().smul(c)),
        sproject(G2Point::sgenerator().smul(6).sadd(G2Point::sgenerator().smul(c))) == col_point(6 + c),
        (G2Point::sgenerator().smul(6).sadd(G2Point::sgenerator().smul(c)) == G2Point::Infinity) <==> 6 + c == 0,
{
    crate::g2_multiples::lemma_multiple_6_value();
    if c == 0 {
        crate::g2_multiples::lemma_multiple_0_value();
        lemma_h_multiple(6);
    } else if c == 1 {
        crate::g2_multiples::lemma_multiple_1_value();
        lemma_sum_6_1();
    } else if c == 2 {
        crate::g2_multiples::lemma_multiple_2_value();
        lemma_sum_6_2();
    } else if c == 3 {
        crate::g2_multiples::lemma_multiple_3_value();
        lemma_sum_6_3();
    } else if c == 4 {
        crate::g2_multiples::lemma_multiple_4_value();
        lemma_sum_6_4();
    } else if c == 5 {
        crate::g2_multiples::lemma_multiple_5_value();
        lemma_sum_6_5();
    } else if c == 6 {
        crate::g2_multiples::lemma_multiple_6_value();
        lemma_sum_6_6();
    } else if c == 7 {
        crate::g2_multiples::lemma_multiple_7_value();
        lemma_sum_6_7();
    } else if c == 8 {
        crate::g2_multiples::lemma_multiple_8_value();
        lemma_sum_6_8();
    } else if c == 9 {
        crate::g2_multiples::lemma_multiple_9_value();
        lemma_sum_6_9();
    } else if c == 10 {
        crate::g2_multiples::lemma_multiple_10_value();
        lemma_sum_6_10();
    } else if c == 11 {
        crate::g2_multiples::lemma_multiple_11_value();
        lemma_sum_6_11();
    } else if c == 12 {
        crate::g2_multiples::lemma_multiple_12_value();
        lemma_sum_6_12();
    } else if c == 13 {
        crate::g2_multiples::lemma_multiple_13_value();
        lemma_sum_6_13();
    } else if c == 14 {
        crate::g2_multiples::lemma_multiple_14_value();
        lemma_sum_6_14();
    } else if c == 15 {
        crate::g2_multiples::lemma_multiple_15_value();
        lemma_sum_6_15();
    } else if c == 16 {
        crate::g2_multiples::lemma_multiple_16_value();
        lemma_sum_6_16();
    }
}

#[verifier::spinoff_prover]
proof fn lemma_h_sum_row_7(c: nat)
    requires
        c < 17,
    ensures
        G2Point::sgenerator().smul(7).add_defined(G2Point::sgenerator().smul(c)),
        sproject(G2Point::sgenerator().smul(7).sadd(G2Point::sgenerator().smul(c))) == col_point(7 + c),
        (G2Point::sgenerator().smul(7).sadd(G2Point::sgenerator().smul(c)) == G2Point::Infinity) <==> 7 + c == 0,
{
    crate::g2_multiples::lemma_multiple_7_value();
    if c == 0 {
        crate::g2_multiples::lemma_multiple_0_value();
        lemma_h_multiple(7);
    } else if c == 1 {
        crate::g2_multiples::lemma_multiple_1_value();
        lemma_sum_7_1();
    } else if c == 2 {
        crate::g2_multiples::lemma_multiple_2_value();
        lemma_sum_7_2();
    } else if c == 3 {
        crate::g2_multiples::lemma_multiple_3_value();
        lemma_sum_7_3();
    } else if c == 4 {
        crate::g2_multiples::lemma_multiple_4_value();
        lemma_sum_7_4();
    } else if c == 5 {
        crate::g2_multiples::lemma_multiple_5_value();
        lemma_sum_7_5();
    } else if c == 6 {
        crate::g2_multiples::lemma_multiple_6_value();
        lemma_sum_7_6();
    } else if c == 7 {
        crate::g2_multiples::lemma_multiple_7_value();
        lemma_sum_7_7();
    } else if c == 8 {
        crate::g2_multiples::lemma_multiple_8_value();
        lemma_sum_7_8();
    } else if c == 9 {
        crate::g2_multiples::lemma_multiple_9_value();
        lemma_sum_7_9();
    } else if c == 10 {
        crate::g2_multiples::lemma_multiple_10_value();
        lemma_sum_7_10();
    } else if c == 11 {
        crate::g2_multiples::lemma_multiple_11_value();
        lemma_sum_7_11();
    } else if c == 12 {
        crate::g2_multiples::lemma_multiple_12_value();
        lemma_sum_7_12();
    } else if c == 13 {
        crate::g2_multiples::lemma_multiple_13_value();
        lemma_sum_7_13();
    } else if c == 14 {
        crate::g2_multiples::lemma_multiple_14_value();
        lemma_sum_7_14();
    } else if c == 15 {
        crate::g2_multiples::lemma_multiple_15_value();
        lemma_sum_7_15();
    } else if c == 16 {
        crate::g2_multiples::lemma_multiple_16_value();
        lemma_sum_7_16();
    }
}

#[verifier::spinoff_prover]
proof fn lemma_h_sum_row_8(c: nat)
    requires
        c < 17,
    ensures
        G2Point::sgenerator().smul(8).add_defined(G2Point::sgenerator().smul(c)),
        sproject(G2Point::sgenerator().smul(8).sadd(G2Point::sgenerator().smul(c))) == col_point(8 + c),
        (G2Point::sgenerator().smul(8).sadd(G2Point::sgenerator().smul(c)) == G2Point::Infinity) <==> 8 + c == 0,
{
    crate::g2_multiples::lemma_multiple_8_value();
    if c == 0 {
        crate::g2_multiples::lemma_multiple_0_value();
        lemma_h_multiple(8);
    } else if c == 1 {
        crate::g2_multiples::lemma_multiple_1_value();
        lemma_sum_8_1();
    } else if c == 2 {
        crate::g2_multiples::lemma_multiple_2_value();
        lemma_sum_8_2();
    } else if c == 3 {
        crate::g2_multiples::lemma_multiple_3_value();
        lemma_sum_8_3();
    } else if c == 4 {
        crate::g2_multiples::lemma_multiple_4_value();
        lemma_sum_8_4();
    } else if c == 5 {
        crate::g2_multiples::lemma_multiple_5_value();
        lemma_sum_8_5();
    } else if c == 6 {
        crate::g2_multiples::lemma_multiple_6_value();
        lemma_sum_8_6();
    } else if c == 7 {
        crate::g2_multiples::lemma_multiple_7_value();
        lemma_sum_8_7();
    } else if c == 8 {
        crate::g2_multiples::lemma_multiple_8_value();
        lemma_sum_8_8();
    } else if c == 9 {
        crate::g2_multiples::lemma_multiple_9_value();
        lemma_sum_8_9();
    } else if c == 10 {
        crate::g2_multiples::lemma_multiple_10_value();
        lemma_sum_8_10();
    } else if c == 11 {
        crate::g2_multiples::lemma_multiple_11_value();
        lemma_sum_8_11();
    } else if c == 12 {
        crate::g2_multiples::lemma_multiple_12_value();
        lemma_sum_8_12();
    } else if c == 13 {
        crate::g2_multiples::lemma_multiple_13_value();
        lemma_sum_8_13();
    } else if c == 14 {
        crate::g2_multiples::lemma_multiple_14_value();
        lemma_sum_8_14();
    } else if c == 15 {
        crate::g2_multiples::lemma_multiple_15_value();
        lemma_sum_8_15();
    } else if c == 16 {
        crate::g2_multiples::lemma_multiple_16_value();
        lemma_sum_8_16();
    }
}

#[verifier::spinoff_prover]
proof fn lemma_h_sum_row_9(c: nat)
    requires
        c < 17,
    ensures
        G2Point::sgenerator().smul(9).add_defined(G2Point::sgenerator().smul(c)),
        sproject(G2Point::sgenerator().smul(9).sadd(G2Point::sgenerator().smul(c))) == col_point(9 + c),
        (G2Point::sgenerator().smul(9).sadd(G2Point::sgenerator().smul(c)) == G2Point::Infinity) <==> 9 + c == 0,
{
    crate::g2_multiples::lemma_multiple_9_value();
    if c == 0 {
        crate::g2_multiples::lemma_multiple_0_value();
        lemma_h_multiple(9);
    } else if c == 1 {
        crate::g2_multiples::lemma_multiple_1_value();
        lemma_sum_9_1();
    } else if c == 2 {
        crate::g2_multiples::lemma_multiple_2_value();
        lemma_sum_9_2();
    } else if c == 3 {
        crate::g2_multiples::lemma_multiple_3_value();
        lemma_sum_9_3();
    } else if c == 4 {
        crate::g2_multiples::lemma_multiple_4_value();
        lemma_sum_9_4();
    } else if c == 5 {
        crate::g2_multiples::lemma_multiple_5_value();
        lemma_sum_9_5();
    } else if c == 6 {
        crate::g2_multiples::lemma_multiple_6_value();
        lemma_sum_9_6();
    } else if c == 7 {
        crate::g2_multiples::lemma_multiple_7_value();
        lemma_sum_9_7();
    } else if c == 8 {
        crate::g2_multiples::lemma_multiple_8_value();
        lemma_sum_9_8();
    } else if c == 9 {
        crate::g2_multiples::lemma_multiple_9_value();
        lemma_sum_9_9();
    } else if c == 10 {
        crate::g2_multiples::lemma_multiple_10_value();
        lemma_sum_9_10();
    } else if c == 11 {
        crate::g2_multiples::lemma_multiple_11_value();
        lemma_sum_9_11();
    } else if c == 12 {
        crate::g2_multiples::lemma_multiple_12_value();
        lemma_sum_9_12();
    } else if c == 13 {
        crate::g2_multiples::lemma_multiple_13_value();
        lemma_sum_9_13();
    } else if c == 14 {
        crate::g2_multiples::lemma_multiple_14_value();
        lemma_sum_9_14();
    } else if c == 15 {
        crate::g2_multiples::lemma_multiple_15_value();
        lemma_sum_9_15();
    } else if c == 16 {
        crate::g2_multiples::lemma_multiple_16_value();
        lemma_sum_9_16();
    }
}

#[verifier::spinoff_prover]
proof fn lemma_h_sum_row_10(c: nat)
    requires
        c < 17,
    ensures
        G2Point::sgenerator().smul(10).add_defined(G2Point::sgenerator().smul(c)),
        sproject(G2Point::sgenerator().smul(10).sadd(G2Point::sgenerator().smul(c))) == col_point(10 + c),
        (G2Point::sgenerator().smul(10).sadd(G2Point::sgenerator().smul(c)) == G2Point::Infinity) <==> 10 + c == 0,
{
    crate::g2_multiples::lemma_multiple_10_value();
    if c == 0 {
        crate::g2_multiples::lemma_multiple_0_value();
        lemma_h_multiple(10);
    } else if c == 1 {
        crate::g2_multiples::lemma_multiple_1_value();
        lemma_sum_10_1();
    } else if c == 2 {
        crate::g2_multiples::lemma_multiple_2_value();
        lemma_sum_10_2();
    } else if c == 3 {
        crate::g2_multiples::lemma_multiple_3_value();
        lemma_sum_10_3();
    } else if c == 4 {
        crate::g2_multiples::lemma_multiple_4_value();
        lemma_sum_10_4();
    } else if c == 5 {
        crate::g2_multiples::lemma_multiple_5_value();
        lemma_sum_10_5();
    } else if c == 6 {
        crate::g2_multiples::lemma_multiple_6_value();
        lemma_sum_10_6();
    } else if c == 7 {
        crate::g2_multiples::lemma_multiple_7_value();
        lemma_sum_10_7();
    } else if c == 8 {
        crate::g2_multiples::lemma_multiple_8_value();
        lemma_sum_10_8();
    } else if c == 9 {
        crate::g2_multiples::lemma_multiple_9_value();
        lemma_sum_10_9();
    } else if c == 10 {
        crate::g2_multiples::lemma_multiple_10_value();
        lemma_sum_10_10();
    } else if c == 11 {
        crate::g2_multiples::lemma_multiple_11_value();
        lemma_sum_10_11();
    } else if c == 12 {
        crate::g2_multiples::lemma_multiple_12_value();
        lemma_sum_10_12();
    } else if c == 13 {
        crate::g2_multiples::lemma_multiple_13_value();
        lemma_sum_10_13();
    } else if c == 14 {
        crate::g2_multiples::lemma_multiple_14_value();
        lemma_sum_10_14();
    } else if c == 15 {
        crate::g2_multiples::lemma_multiple_15_value();
        lemma_sum_10_15();
    } else if c == 16 {
        crate::g2_multiples::lemma_multiple_16_value();
        lemma_sum_10_16();
    }
}

#[verifier::spinoff_prover]
proof fn lemma_h_sum_row_11(c: nat)
    requires
        c < 17,
    ensures
        G2Point::sgenerator().smul(11).add_defined(G2Point::sgenerator().smul(c)),
        sproject(G2Point::sgenerator().smul(11).sadd(G2Point::sgenerator().smul(c))) == col_point(11 + c),
        (G2Point::sgenerator().smul(11).sadd(G2Point::sgenerator().smul(c)) == G2Point::Infinity) <==> 11 + c == 0,
{
    crate::g2_multiples::lemma_multiple_11_value();
    if c == 0 {
        crate::g2_multiples::lemma_multiple_0_value();
        lemma_h_multiple(11);
    } else if c == 1 {
        crate::g2_multiples::lemma_multiple_1_value();
        lemma_sum_11_1();
    } else if c == 2 {
        crate::g2_multiples::lemma_multiple_2_value();
        lemma_sum_11_2();
    } else if c == 3 {
        crate::g2_multiples::lemma_multiple_3_value();
        lemma_sum_11_3();
    } else if c == 4 {
        crate::g2_multiples::lemma_multiple_4_value();
        lemma_sum_11_4();
    } else if c == 5 {
        crate::g2_multiples::lemma_multiple_5_value();
        lemma_sum_11_5();
    } else if c == 6 {
        crate::g2_multiples::lemma_multiple_6_value();
        lemma_sum_11_6();
    } else if c == 7 {
        crate::g2_multiples::lemma_multiple_7_value();
        lemma_sum_11_7();
    } else if c == 8 {
        crate::g2_multiples::lemma_multiple_8_value();
        lemma_sum_11_8();
    } else if c == 9 {
        crate::g2_multiples::lemma_multiple_9_value();
        lemma_sum_11_9();
    } else if c == 10 {
        crate::g2_multiples::lemma_multiple_10_value();
        lemma_sum_11_10();
    } else if c == 11 {
        crate::g2_multiples::lemma_multiple_11_value();
        lemma_sum_11_11();
    } else if c == 12 {
        crate::g2_multiples::lemma_multiple_12_value();
        lemma_sum_11_12();
    } else if c == 13 {
        crate::g2_multiples::lemma_multiple_13_value();
        lemma_sum_11_13();
    } else if c == 14 {
        crate::g2_multiples::lemma_multiple_14_value();
        lemma_sum_11_14();
    } else if c == 15 {
        crate::g2_multiples::lemma_multiple_15_value();
        lemma_sum_11_15();
    } else if c == 16 {
        crate::g2_multiples::lemma_multiple_16_value();
        lemma_sum_11_16();
    }
}

#[verifier::spinoff_prover]
proof fn lemma_h_sum_row_12(c: nat)
    requires
        c < 17,
    ensures
        G2Point::sgenerator().smul(12).add_defined(G2Point::sgenerator().smul(c)),
        sproject(G2Point::sgenerator().smul(12).sadd(G2Point::sgenerator().smul(c))) == col_point(12 + c),
        (G2Point::sgenerator().smul(12).sadd(G2Point::sgenerator().smul(c)) == G2Point::Infinity) <==> 12 + c == 0,
{
    crate::g2_multiples::lemma_multiple_12_value();
    if c == 0 {
        crate::g2_multiples::lemma_multiple_0_value();
        lemma_h_multiple(12);
    } else if c == 1 {
        crate::g2_multiples::lemma_multiple_1_value();
        lemma_sum_12_1();
    } else if c == 2 {
        crate::g2_multiples::lemma_multiple_2_value();
        lemma_sum_12_2();
    } else if c == 3 {
        crate::g2_multiples::lemma_multiple_3_value();
        lemma_sum_12_3();
    } else if c == 4 {
        crate::g2_multiples::lemma_multiple_4_value();
        lemma_sum_12_4();
    } else if c == 5 {
        crate::g2_multiples::lemma_multiple_5_value();
        lemma_sum_12_5();
    } else if c == 6 {
        crate::g2_multiples::lemma_multiple_6_value();
        lemma_sum_12_6();
    } else if c == 7 {
        crate::g2_multiples::lemma_multiple_7_value();
        lemma_sum_12_7();
    } else if c == 8 {
        crate::g2_multiples::lemma_multiple_8_value();
        lemma_sum_12_8();
    } else if c == 9 {
        crate::g2_multiples::lemma_multiple_9_value();
        lemma_sum_12_9();
    } else if c == 10 {
        crate::g2_multiples::lemma_multiple_10_value();
        lemma_sum_12_10();
    } else if c == 11 {
        crate::g2_multiples::lemma_multiple_11_value();
        lemma_sum_12_11();
    } else if c == 12 {
        crate::g2_multiples::lemma_multiple_12_value();
        lemma_sum_12_12();
    } else if c == 13 {
        crate::g2_multiples::lemma_multiple_13_value();
        lemma_sum_12_13();
    } else if c == 14 {
        crate::g2_multiples::lemma_multiple_14_value();
        lemma_sum_12_14();
    } else if c == 15 {
        crate::g2_multiples::lemma_multiple_15_value();
        lemma_sum_12_15();
    } else if c == 16 {
        crate::g2_multiples::lemma_multiple_16_value();
        lemma_sum_12_16();
    }
}

#[verifier::spinoff_prover]
proof fn lemma_h_sum_row_13(c: nat)
    requires
        c < 17,
    ensures
        G2Point::sgenerator().smul(13).add_defined(G2Point::sgenerator().smul(c)),
        sproject(G2Point::sgenerator().smul(13).sadd(G2Point::sgenerator().smul(c))) == col_point(13 + c),
        (G2Point::sgenerator().smul(13).sadd(G2Point::sgenerator().smul(c)) == G2Point::Infinity) <==> 13 + c == 0,
{
    crate::g2_multiples::lemma_multiple_13_value();
    if c == 0 {
        crate::g2_multiples::lemma_multiple_0_value();
        lemma_h_multiple(13);
    } else if c == 1 {
        crate::g2_multiples::lemma_multiple_1_value();
        lemma_sum_13_1();
    } else if c == 2 {
        crate::g2_multiples::lemma_multiple_2_value();
        lemma_sum_13_2();
    } else if c == 3 {
        crate::g2_multiples::lemma_multiple_3_value();
        lemma_sum_13_3();
    } else if c == 4 {
        crate::g2_multiples::lemma_multiple_4_value();
        lemma_sum_13_4();
    } else if c == 5 {
        crate::g2_multiples::lemma_multiple_5_value();
        lemma_sum_13_5();
    } else if c == 6 {
        crate::g2_multiples::lemma_multiple_6_value();
        lemma_sum_13_6();
    } else if c == 7 {
        crate::g2_multiples::lemma_multiple_7_value();
        lemma_sum_13_7();
    } else if c == 8 {
        crate::g2_multiples::lemma_multiple_8_value();
        lemma_sum_13_8();
    } else if c == 9 {
        crate::g2_multiples::lemma_multiple_9_value();
        lemma_sum_13_9();
    } else if c == 10 {
        crate::g2_multiples::lemma_multiple_10_value();
        lemma_sum_13_10();
    } else if c == 11 {
        crate::g2_multiples::lemma_multiple_11_value();
        lemma_sum_13_11();
    } else if c == 12 {
        crate::g2_multiples::lemma_multiple_12_value();
        lemma_sum_13_12();
    } else if c == 13 {
        crate::g2_multiples::lemma_multiple_13_value();
        lemma_sum_13_13();
    } else if c == 14 {
        crate::g2_multiples::lemma_multiple_14_value();
        lemma_sum_13_14();
    } else if c == 15 {
        crate::g2_multiples::lemma_multiple_15_value();
        lemma_sum_13_15();
    } else if c == 16 {
        crate::g2_multiples::lemma_multiple_16_value();
        lemma_sum_13_16();
    }
}

#[verifier::spinoff_prover]
proof fn lemma_h_sum_row_14(c: nat)
    requires
        c < 17,
    ensures
        G2Point::sgenerator().smul(14).add_defined(G2Point::sgenerator().smul(c)),
        sproject(G2Point::sgenerator().smul(14).sadd(G2Point::sgenerator().smul(c))) == col_point(14 + c),
        (G2Point::sgenerator().smul(14).sadd(G2Point::sgenerator().smul(c)) == G2Point::Infinity) <==> 14 + c == 0,
{
    crate::g2_multiples::lemma_multiple_14_value();
    if c == 0 {
        crate::g2_multiples::lemma_multiple_0_value();
        lemma_h_multiple(14);
    } else if c == 1 {
        crate::g2_multiples::lemma_multiple_1_value();
        lemma_sum_14_1();
    } else if c == 2 {
        crate::g2_multiples::lemma_multiple_2_value();
        lemma_sum_14_2();
    } else if c == 3 {
        crate::g2_multiples::lemma_multiple_3_value();
        lemma_sum_14_3();
    } else if c == 4 {
        crate::g2_multiples::lemma_multiple_4_value();
        lemma_sum_14_4();
    } else if c == 5 {
        crate::g2_multiples::lemma_multiple_5_value();
        lemma_sum_14_5();
    } else if c == 6 {
        crate::g2_multiples::lemma_multiple_6_value();
        lemma_sum_14_6();
    } else if c == 7 {
        crate::g2_multiples::lemma_multiple_7_value();
        lemma_sum_14_7();
    } else if c == 8 {
        crate::g2_multiples::lemma_multiple_8_value();
        lemma_sum_14_8();
    } else if c == 9 {
        crate::g2_multiples::lemma_multiple_9_value();
        lemma_sum_14_9();
    } else if c == 10 {
        crate::g2_multiples::lemma_multiple_10_value();
        lemma_sum_14_10();
    } else if c == 11 {
        crate::g2_multiples::lemma_multiple_11_value();
        lemma_sum_14_11();
    } else if c == 12 {
        crate::g2_multiples::lemma_multiple_12_value();
        lemma_sum_14_12();
    } else if c == 13 {
        crate::g2_multiples::lemma_multiple_13_value();
        lemma_sum_14_13();
    } else if c == 14 {
        crate::g2_multiples::lemma_multiple_14_value();
        lemma_sum_14_14();
    } else if c == 15 {
        crate::g2_multiples::lemma_multiple_15_value();
        lemma_sum_14_15();
    } else if c == 16 {
        crate::g2_multiples::lemma_multiple_16_value();
        lemma_sum_14_16();
    }
}

#[verifier::spinoff_prover]
proof fn lemma_h_sum_row_15(c: nat)
    requires
        c < 17,
    ensures
        G2Point::sgenerator().smul(15).add_defined(G2Point::sgenerator().smul(c)),
        sproject(G2Point::sgenerator().smul(15).sadd(G2Point::sgenerator().smul(c))) == col_point(15 + c),
        (G2Point::sgenerator().smul(15).sadd(G2Point::sgenerator().smul(c)) == G2Point::Infinity) <==> 15 + c == 0,
{
    crate::g2_multiples::lemma_multiple_15_value();
    if c == 0 {
        crate::g2_multiples::lemma_multiple_0_value();
        lemma_h_multiple(15);
    } else if c == 1 {
        crate::g2_multiples::lemma_multiple_1_value();
        lemma_sum_15_1();
    } else if c == 2 {
        crate::g2_multiples::lemma_multiple_2_value();
        lemma_sum_15_2();
    } else if c == 3 {
        crate::g2_multiples::lemma_multiple_3_value();
        lemma_sum_15_3();
    } else if c == 4 {
        crate::g2_multiples::lemma_multiple_4_value();
        lemma_sum_15_4();
    } else if c == 5 {
        crate::g2_multiples::lemma_multiple_5_value();
        lemma_sum_15_5();
    } else if c == 6 {
        crate::g2_multiples::lemma_multiple_6_value();
        lemma_sum_15_6();
    } else if c == 7 {
        crate::g2_multiples::lemma_multiple_7_value();
        lemma_sum_15_7();
    } else if c == 8 {
        crate::g2_multiples::lemma_multiple_8_value();
        lemma_sum_15_8();
    } else if c == 9 {
        crate::g2_multiples::lemma_multiple_9_value();
        lemma_sum_15_9();
    } else if c == 10 {
        crate::g2_multiples::lemma_multiple_10_value();
        lemma_sum_15_10();
    } else if c == 11 {
        crate::g2_multiples::lemma_multiple_11_value();
        lemma_sum_15_11();
    } else if c == 12 {
        crate::g2_multiples::lemma_multiple_12_value();
        lemma_sum_15_12();
    } else if c == 13 {
        crate::g2_multiples::lemma_multiple_13_value();
        lemma_sum_15_13();
    } else if c == 14 {
        crate::g2_multiples::lemma_multiple_14_value();
        lemma_sum_15_14();
    } else if c == 15 {
        crate::g2_multiples::lemma_multiple_15_value();
        lemma_sum_15_15();
    } else if c == 16 {
        crate::g2_multiples::lemma_multiple_16_value();
        lemma_sum_15_16();
    }
}

#[verifier::spinoff_prover]
proof fn lemma_h_sum_row_16(c: nat)
    requires
        c < 17,
    ensures
        G2Point::sgenerator().smul(16).add_defined(G2Point::sgenerator().smul(c)),
        sproject(G2Point::sgenerator().smul(16).sadd(G2Point::sgenerator().smul(c))) == col_point(16 + c),
        (G2Point::sgenerator().smul(16).sadd(G2Point::sgenerator().smul(c)) == G2Point::Infinity) <==> 16 + c == 0,
{
    crate::g2_multiples::lemma_multiple_16_value();
    if c == 0 {
        crate::g2_multiples::lemma_multiple_0_value();
        lemma_h_multiple(16);
    } else if c == 1 {
        crate::g2_multiples::lemma_multiple_1_value();
        lemma_sum_16_1();
    } else if c == 2 {
        crate::g2_multiples::lemma_multiple_2_value();
        lemma_sum_16_2();
    } else if c == 3 {
        crate::g2_multiples::lemma_multiple_3_value();
        lemma_sum_16_3();
    } else if c == 4 {
        crate::g2_multiples::lemma_multiple_4_value();
        lemma_sum_16_4();
    } else if c == 5 {
        crate::g2_multiples::lemma_multiple_5_value();
        lemma_sum_16_5();
    } else if c == 6 {
        crate::g2_multiples::lemma_multiple_6_value();
        lemma_sum_16_6();
    } else if c == 7 {
        crate::g2_multiples::lemma_multiple_7_value();
        lemma_sum_16_7();
    } else if c == 8 {
        crate::g2_multiples::lemma_multiple_8_value();
        lemma_sum_16_8();
    } else if c == 9 {
        crate::g2_multiples::lemma_multiple_9_value();
        lemma_sum_16_9();
    } else if c == 10 {
        crate::g2_multiples::lemma_multiple_10_value();
        lemma_sum_16_10();
    } else if c == 11 {
        crate::g2_multiples::lemma_multiple_11_value();
        lemma_sum_16_11();
    } else if c == 12 {
        crate::g2_multiples::lemma_multiple_12_value();
        lemma_sum_16_12();
    } else if c == 13 {
        crate::g2_multiples::lemma_multiple_13_value();
        lemma_sum_16_13();
    } else if c == 14 {
        crate::g2_multiples::lemma_multiple_14_value();
        lemma_sum_16_14();
    } else if c == 15 {
        crate::g2_multiples::lemma_multiple_15_value();
        lemma_sum_16_15();
    } else if c == 16 {
        crate::g2_multiples::lemma_multiple_16_value();
        lemma_sum_16_16();
    }
}

/// `b H + c H` for scalars below 17: defined, the point at infinity exactly when
/// `b == c == 0`, and mapped by `i -> 10` to `(b + c) P`.
pub(crate) proof fn lemma_h_sum(b: nat, c: nat)
    requires
        b < 17,
        c < 17,
    ensures
        G2Point::sgenerator().smul(b).add_defined(G2Point::sgenerator().smul(c)),
        sproject(G2Point::sgenerator().smul(b).sadd(G2Point::sgenerator().smul(c))) == col_point(b + c),
        (G2Point::sgenerator().smul(b).sadd(G2Point::sgenerator().smul(c)) == G2Point::Infinity)
            <==> b + c == 0,
{
    if b == 0 {
        lemma_h_sum_row_0(c);
    } else if b == 1 {
        lemma_h_sum_row_1(c);
    } else if b == 2 {
        lemma_h_sum_row_2(c);
    } else if b == 3 {
        lemma_h_sum_row_3(c);
    } else if b == 4 {
        lemma_h_sum_row_4(c);
    } else if b == 5 {
        lemma_h_sum_row_5(c);
    } else if b == 6 {
        lemma_h_sum_row_6(c);
    } else if b == 7 {
        lemma_h_sum_row_7(c);
    } else if b == 8 {
        lemma_h_sum_row_8(c);
    } else if b == 9 {
        lemma_h_sum_row_9(c);
    } else if b == 10 {
        lemma_h_sum_row_10(c);
    } else if b == 11 {
        lemma_h_sum_row_11(c);
    } else if b == 12 {
        lemma_h_sum_row_12(c);
    } else if b == 13 {
        lemma_h_sum_row_13(c);
    } else if b == 14 {
        lemma_h_sum_row_14(c);
    } else if b == 15 {
        lemma_h_sum_row_15(c);
    } else if b == 16 {
        lemma_h_sum_row_16(c);
    }
}

/// The pairing of `a G` with `(b + c) H`, written as `e(G, H)^(a (b + c))`.
proof fn lemma_pairing_at_sum(a: nat, b: nat, c: nat)
    requires
        a < 17,
        b < 17,
        c < 17,
    ensures
        pairing_defined(
            G1Point::sgenerator().smul(a),
            G2Point::sgenerator().smul(b).sadd(G2Point::sgenerator().smul(c)),
        ),
        spairing(G1Point::sgenerator().smul(a), G2Point::sgenerator().smul(b).sadd(G2Point::sgenerator().smul(c)))
            == e_gen().spow((a * (b + c)) % 17),
{
    lemma_h_sum(b, c);
    lemma_powers();
    assert(GT::sone() == GT(gt_of(1, 0)));
    if a == 0 {
        lemma_g1_multiple_0();
        assert(a * (b + c) == 0);
    } else if b + c == 0 {
        assert(a * (b + c) == 0);
    } else if b + c == 17 {
        lemma_pairing_column_17(a);
        assert((a * (b + c)) % 17 == 0) by {
            lemma_mod_multiples_basic(a as int, 17);
        }
    } else {
        lemma_pairing_column(a, b + c);
    }
}

/// The pairing is additive in its second argument on the multiples of the generators: for
/// scalars `a`, `b` and `c` below 17, the sum `b H + c H` is defined, the pairing is defined
/// on it, and `e(a G, b H + c H) == e(a G, b H) * e(a G, c H)`.
pub proof fn lemma_pairing_additive_in_g2(a: nat, b: nat, c: nat)
    requires
        a < 17,
        b < 17,
        c < 17,
    ensures
        G2Point::sgenerator().smul(b).add_defined(G2Point::sgenerator().smul(c)),
        pairing_defined(
            G1Point::sgenerator().smul(a),
            G2Point::sgenerator().smul(b).sadd(G2Point::sgenerator().smul(c)),
        ),
        spairing(G1Point::sgenerator().smul(a), G2Point::sgenerator().smul(b).sadd(G2Point::sgenerator().smul(c)))
            == spairing(G1Point::sgenerator().smul(a), G2Point::sgenerator().smul(b)).smul(
            spairing(G1Point::sgenerator().smul(a), G2Point::sgenerator().smul(c)),
        ),
{
    let e = e_gen();
    lemma_h_sum(b, c);
    lemma_pairing_at_sum(a, b, c);
    lemma_e_gen();
    lemma_pairing_bilinear_small(a, b);
    lemma_pairing_bilinear_small(a, c);
    GT::lemma_pow_laws(e, a * b, a * c);
    lemma_pow_mod_order(e, a * (b + c));
    assert(a * (b + c) == a * b + a * c) by (nonlinear_arith);
}

/// Bilinearity of the pairing for every 64-bit scalar on the G1 side and every residue
/// `b < 101` on the G2 side whose multiple `b H` double-and-add computes (all but 34, 51,
/// 68, 77, 94 and 98, where a denominator is a zero divisor of `Fp2`): `b H` is defined, the
/// pairing of `a G` and `b H` is defined, and it equals `e(G, H)^(a b)`.
pub proof fn lemma_pairing_bilinear_wide(a: nat, b: nat)
    requires
        a < 0x10000000000000000,
        b < 101,
        b != 34,
        b != 51,
        b != 68,
        b != 77,
        b != 94,
        b != 98,
    ensures
        G2Point::sgenerator().mul_defined(b),
        pairing_defined(G1Point::sgenerator().smul(a), G2Point::sgenerator().smul(b)),
        spairing(G1Point::sgenerator().smul(a), G2Point::sgenerator().smul(b)) == spairing(
            G1Point::sgenerator(),
            G2Point::sgenerator(),
        ).spow(a * b),
{
    if b < 17 {
        crate::g2_multiples::lemma_g2_multiples_defined();
        crate::pairing_values::lemma_pairing_bilinear(a, b);
    } else {
        let s = a % 17;
        let c = b % 34;
        crate::g2_multiples::lemma_h_wide(b);
        crate::kzg_laws::lemma_gm_reduce(a);
        lemma_e_gen();
        lemma_powers();
        lemma_pow_mod_order(e_gen(), a * b);
        assert(GT::sone() == GT(gt_of(1, 0)));
        assert((s * c) % 17 == (a * b) % 17) by {
            lemma_mod_mod(b as int, 17, 2);
            lemma_mul_mod_noop_right(s as int, c as int, 17);
            lemma_mul_mod_noop_right(s as int, b as int, 17);
            lemma_mul_mod_noop_left(a as int, b as int, 17);
        }
        if s == 0 {
            lemma_g1_multiple_0();
            assert(s * c == 0);
        } else if c == 17 {
            lemma_pairing_column_17(s);
            lemma_mod_multiples_basic(s as int, 17);
        } else {
            lemma_pairing_column(s, c);
        }
    }
}

} // verus!
