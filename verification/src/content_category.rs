//! Content Categories: the names of list 5.1 of OpenRTB 2.5.
//!
//! A category is written as `IAB`, the number of the category and, for a subcategory, a
//! hyphen and its number: `IAB1`, `IAB1-1`, `IAB19-36`. A name is read letter for letter:
//! `iab1`, `IAB01` and `IAB1-` name nothing.

use vstd::prelude::*;
use vstd::string::{StrSliceExecFns, StringExecFns};
use serde_json::Value;
use crate::codec::Codec;
use crate::error::{Error, ErrorView};
use crate::json::Json;
use crate::text::{digit, digit_text, digit_value, read_digit};

verus! {

/// Content Categories (OpenRTB 2.5, list 5.1).
///
/// The following list represents the IAB's contextual taxonomy for categorization. Standard
/// IDs have been adopted to easily support the communication of primary and secondary
/// categories for various objects. This OpenRTB table has values derived from the IAB Tech
/// Lab Content Taxonomy. Practitioners should keep in sync with updates as published on
/// www.iab.com.
#[allow(non_camel_case_types)]
#[derive(Clone, Copy, Debug, PartialEq, Eq, Structural)]
pub enum ContentCategory {
    /// Arts & Entertainment
    Iab1,
    /// Books & Literature
    Iab1_1,
    /// Celebrity Fan/Gossip
    Iab1_2,
    /// Fine Art
    Iab1_3,
    /// Humor
    Iab1_4,
    /// Movies
    Iab1_5,
    /// Music
    Iab1_6,
    /// Television
    Iab1_7,
    /// Automotive
    Iab2,
    /// Auto Parts
    Iab2_1,
    /// Auto Repair
    Iab2_2,
    /// Buying/Selling Cars
    Iab2_3,
    /// Car Culture
    Iab2_4,
    /// Certified Pre_Owned
    Iab2_5,
    /// Convertible
    Iab2_6,
    /// Coupe
    Iab2_7,
    /// Crossover
    Iab2_8,
    /// Diesel
    Iab2_9,
    /// Electric Vehicle
    Iab2_10,
    /// Hatchback
    Iab2_11,
    /// Hybrid
    Iab2_12,
    /// Luxury
    Iab2_13,
    /// Minivan
    Iab2_14,
    /// Motorcycles
    Iab2_15,
    /// Off_Road Vehicles
    Iab2_16,
    /// Performance Vehicles
    Iab2_17,
    /// Pickup
    Iab2_18,
    /// Road-Side Assistance
    Iab2_19,
    /// Sedan
    Iab2_20,
    /// Trucks & Accessories
    Iab2_21,
    /// Vintage Cars
    Iab2_22,
    /// Wagon
    Iab2_23,
    /// Business
    Iab3,
    /// Advertising
    Iab3_1,
    /// Agriculture
    Iab3_2,
    /// Biotech/Biomedical
    Iab3_3,
    /// Business Software
    Iab3_4,
    /// Construction
    Iab3_5,
    /// Forestry
    Iab3_6,
    /// Government
    Iab3_7,
    /// Green Solutions
    Iab3_8,
    /// Human Resources
    Iab3_9,
    /// Logistics
    Iab3_10,
    /// Marketing
    Iab3_11,
    /// Metals
    Iab3_12,
    /// Careers
    Iab4,
    /// Career Planning
    Iab4_1,
    /// College
    Iab4_2,
    /// Financial Aid
    Iab4_3,
    /// Job Fairs
    Iab4_4,
    /// Job Search
    Iab4_5,
    /// Resume Writing/Advice
    Iab4_6,
    /// Nursing
    Iab4_7,
    /// Scholarships
    Iab4_8,
    /// Telecommuting
    Iab4_9,
    /// U.S. Military
    Iab4_10,
    /// Career Advice
    Iab4_11,
    /// Education
    Iab5,
    /// 7-12 Education
    Iab5_1,
    /// Adult Education
    Iab5_2,
    /// Art History
    Iab5_3,
    /// College Administration
    Iab5_4,
    /// College Life
    Iab5_5,
    /// Distance Learning
    Iab5_6,
    /// English as a 2nd Language
    Iab5_7,
    /// Language Learning
    Iab5_8,
    /// Graduate School
    Iab5_9,
    /// Homeschooling
    Iab5_10,
    /// Homework/Study Tips
    Iab5_11,
    /// K-6 Educators
    Iab5_12,
    /// Private School
    Iab5_13,
    /// Special Education
    Iab5_14,
    /// Studying Business
    Iab5_15,
    /// Family & Parenting
    Iab6,
    /// Adoption
    Iab6_1,
    /// Babies & Toddlers
    Iab6_2,
    /// Daycare/Pre School
    Iab6_3,
    /// Family Internet
    Iab6_4,
    /// Parenting - K-6 Kids
    Iab6_5,
    /// Parenting teens
    Iab6_6,
    /// Pregnancy
    Iab6_7,
    /// Special Needs Kids
    Iab6_8,
    /// Eldercare
    Iab6_9,
    /// Health & Fitness
    Iab7,
    /// Exercise
    Iab7_1,
    /// ADD
    Iab7_2,
    /// AIDS/HIV
    Iab7_3,
    /// Allergies
    Iab7_4,
    /// Alternative Medicine
    Iab7_5,
    /// Arthritis
    Iab7_6,
    /// Asthma
    Iab7_7,
    /// Autism/PDD
    Iab7_8,
    /// Bipolar Disorder
    Iab7_9,
    /// Brain Tumor
    Iab7_10,
    /// Cancer
    Iab7_11,
    /// Cholesterol
    Iab7_12,
    /// Chronic Fatigue Syndrome
    Iab7_13,
    /// Chronic Pain
    Iab7_14,
    /// Cold & Flu
    Iab7_15,
    /// Deafness
    Iab7_16,
    /// Dental Care
    Iab7_17,
    /// Depression
    Iab7_18,
    /// Dermatology
    Iab7_19,
    /// Diabetes
    Iab7_20,
    /// Epilepsy
    Iab7_21,
    /// GERD/Acid Reflux
    Iab7_22,
    /// Headaches/Migraines
    Iab7_23,
    /// Heart Disease
    Iab7_24,
    /// Herbs for Health
    Iab7_25,
    /// Holistic Healing
    Iab7_26,
    /// IBS/Crohn's Disease
    Iab7_27,
    /// Incest/Abuse Support
    Iab7_28,
    /// Incontinence
    Iab7_29,
    /// Infertility
    Iab7_30,
    /// Men's Health
    Iab7_31,
    /// Nutrition
    Iab7_32,
    /// Orthopedics
    Iab7_33,
    /// Panic/Anxiety Disorders
    Iab7_34,
    /// Pediatrics
    Iab7_35,
    /// Physical Therapy
    Iab7_36,
    /// Psychology/Psychiatry
    Iab7_37,
    /// Senior Health
    Iab7_38,
    /// Sexuality
    Iab7_39,
    /// Sleep Disorders
    Iab7_40,
    /// Smoking Cessation
    Iab7_41,
    /// Substance Abuse
    Iab7_42,
    /// Thyroid Disease
    Iab7_43,
    /// Weight Loss
    Iab7_44,
    /// Women's Health
    Iab7_45,
    /// Food & Drink
    Iab8,
    /// American Cuisine
    Iab8_1,
    /// Barbecues & Grilling
    Iab8_2,
    /// Cajun/Creole
    Iab8_3,
    /// Chinese Cuisine
    Iab8_4,
    /// Cocktails/Beer
    Iab8_5,
    /// Coffee/Tea
    Iab8_6,
    /// Cuisine-Specific
    Iab8_7,
    /// Desserts & Baking
    Iab8_8,
    /// Dining Out
    Iab8_9,
    /// Food Allergies
    Iab8_10,
    /// French Cuisine
    Iab8_11,
    /// Health/Low-Fat Cooking
    Iab8_12,
    /// Italian Cuisine
    Iab8_13,
    /// Japanese Cuisine
    Iab8_14,
    /// Mexican Cuisine
    Iab8_15,
    /// Vegan
    Iab8_16,
    /// Vegetarian
    Iab8_17,
    /// Wine
    Iab8_18,
    /// Hobbies & Interests
    Iab9,
    /// Art/Technology
    Iab9_1,
    /// Arts & Crafts
    Iab9_2,
    /// Beadwork
    Iab9_3,
    /// Bird-Watching
    Iab9_4,
    /// Board Games/Puzzles
    Iab9_5,
    /// Candle & Soap Making
    Iab9_6,
    /// Card Games
    Iab9_7,
    /// Chess
    Iab9_8,
    /// Cigars
    Iab9_9,
    /// Collecting
    Iab9_10,
    /// Comic Books
    Iab9_11,
    /// Drawing/Sketching
    Iab9_12,
    /// Freelance Writing
    Iab9_13,
    /// Genealogy
    Iab9_14,
    /// Getting Published
    Iab9_15,
    /// Guitar
    Iab9_16,
    /// Home Recording
    Iab9_17,
    /// Investors & Patents
    Iab9_18,
    /// Jewelry Making
    Iab9_19,
    /// Magic & Illusion
    Iab9_20,
    /// Needlework
    Iab9_21,
    /// Painting
    Iab9_22,
    /// Photography
    Iab9_23,
    /// Radio
    Iab9_24,
    /// Roleplaying Games
    Iab9_25,
    /// Sci-Fi & Fantasy
    Iab9_26,
    /// Scrapbooking
    Iab9_27,
    /// Screenwriting
    Iab9_28,
    /// Stamps & Coins
    Iab9_29,
    /// Video & Computer Games
    Iab9_30,
    /// Woodworking
    Iab9_31,
    /// Home & Garden
    Iab10,
    /// Appliances
    Iab10_1,
    /// Entertaining
    Iab10_2,
    /// Environmental Safety
    Iab10_3,
    /// Gardening
    Iab10_4,
    /// Home Repair
    Iab10_5,
    /// Home Theater
    Iab10_6,
    /// Interior Decorating
    Iab10_7,
    /// Landscaping
    Iab10_8,
    /// Remodeling & Construction
    Iab10_9,
    /// Law, Government, & Politics
    Iab11,
    /// Immigration
    Iab11_1,
    /// Legal Issues
    Iab11_2,
    /// U.S. Government Resources
    Iab11_3,
    /// Politics
    Iab11_4,
    /// Commentary
    Iab11_5,
    /// News
    Iab12,
    /// International News
    Iab12_1,
    /// National News
    Iab12_2,
    /// Local News
    Iab12_3,
    /// Personal Finance
    Iab13,
    /// Beginning Investing
    Iab13_1,
    /// Credit/Debt & Loans
    Iab13_2,
    /// Financial News
    Iab13_3,
    /// Financial Planning
    Iab13_4,
    /// Hedge Fund
    Iab13_5,
    /// Insurance
    Iab13_6,
    /// Investing
    Iab13_7,
    /// Mutual Funds
    Iab13_8,
    /// Options
    Iab13_9,
    /// Retirement Planning
    Iab13_10,
    /// Stocks
    Iab13_11,
    /// Tax Planning
    Iab13_12,
    /// Society
    Iab14,
    /// Dating
    Iab14_1,
    /// Divorce Support
    Iab14_2,
    /// Gay Life
    Iab14_3,
    /// Marriage
    Iab14_4,
    /// Senior Living
    Iab14_5,
    /// Teens
    Iab14_6,
    /// Weddings
    Iab14_7,
    /// Ethnic Specific
    Iab14_8,
    /// Science
    Iab15,
    /// Astrology
    Iab15_1,
    /// Biology
    Iab15_2,
    /// Chemistry
    Iab15_3,
    /// Geology
    Iab15_4,
    /// Paranormal Phenomena
    Iab15_5,
    /// Physics
    Iab15_6,
    /// Space/Astronomy
    Iab15_7,
    /// Geography
    Iab15_8,
    /// Botany
    Iab15_9,
    /// Weather
    Iab15_10,
    /// Pets
    Iab16,
    /// Aquariums
    Iab16_1,
    /// Birds
    Iab16_2,
    /// Cats
    Iab16_3,
    /// Dogs
    Iab16_4,
    /// Large Animals
    Iab16_5,
    /// Reptiles
    Iab16_6,
    /// Veterinary Medicine
    Iab16_7,
    /// Sports
    Iab17,
    /// Auto Racing
    Iab17_1,
    /// Baseball
    Iab17_2,
    /// Bicycling
    Iab17_3,
    /// Bodybuilding
    Iab17_4,
    /// Boxing
    Iab17_5,
    /// Canoeing/Kayaking
    Iab17_6,
    /// Cheerleading
    Iab17_7,
    /// Climbing
    Iab17_8,
    /// Cricket
    Iab17_9,
    /// Figure Skating
    Iab17_10,
    /// Fly Fishing
    Iab17_11,
    /// Football
    Iab17_12,
    /// Freshwater Fishing
    Iab17_13,
    /// Game & Fish
    Iab17_14,
    /// Golf
    Iab17_15,
    /// Horse Racing
    Iab17_16,
    /// Horses
    Iab17_17,
    /// Hunting/Shooting
    Iab17_18,
    /// Inline Skating
    Iab17_19,
    /// Martial Arts
    Iab17_20,
    /// Mountain Biking
    Iab17_21,
    /// NASCAR Racing
    Iab17_22,
    /// Olympics
    Iab17_23,
    /// Paintball
    Iab17_24,
    /// Power & Motorcycles
    Iab17_25,
    /// Pro Basketball
    Iab17_26,
    /// Pro Ice Hockey
    Iab17_27,
    /// Rodeo
    Iab17_28,
    /// Rugby
    Iab17_29,
    /// Running/Jogging
    Iab17_30,
    /// Sailing
    Iab17_31,
    /// Saltwater Fishing
    Iab17_32,
    /// Scuba Diving
    Iab17_33,
    /// Skateboarding
    Iab17_34,
    /// Skiing
    Iab17_35,
    /// Snowboarding
    Iab17_36,
    /// Surfing/Body-Boarding
    Iab17_37,
    /// Swimming
    Iab17_38,
    /// Table Tennis/Ping-Pong
    Iab17_39,
    /// Tennis
    Iab17_40,
    /// Volleyball
    Iab17_41,
    /// Walking
    Iab17_42,
    /// Waterski/Wakeboard
    Iab17_43,
    /// World Soccer
    Iab17_44,
    /// Style & Fashion
    Iab18,
    /// Beauty
    Iab18_1,
    /// Body Art
    Iab18_2,
    /// Fashion
    Iab18_3,
    /// Jewelry
    Iab18_4,
    /// Clothing
    Iab18_5,
    /// Accessories
    Iab18_6,
    /// Technology & Computing
    Iab19,
    /// 3-D Graphics
    Iab19_1,
    /// Animation
    Iab19_2,
    /// Antivirus Software
    Iab19_3,
    /// C/C++
    Iab19_4,
    /// Cameras & Camcorders
    Iab19_5,
    /// Cell Phones
    Iab19_6,
    /// Computer Certification
    Iab19_7,
    /// Computer Networking
    Iab19_8,
    /// Computer Peripherals
    Iab19_9,
    Iab19_10,
    /// Data Centers
    Iab19_11,
    /// Databases
    Iab19_12,
    /// Desktop Publishing
    Iab19_13,
    /// Desktop Video
    Iab19_14,
    /// Email
    Iab19_15,
    /// Graphics Software
    Iab19_16,
    /// Home Video/DVD
    Iab19_17,
    /// Internet Technology
    Iab19_18,
    /// Java
    Iab19_19,
    /// JavaScript
    Iab19_20,
    /// Mac Support
    Iab19_21,
    /// MP3/MIDI
    Iab19_22,
    /// Net Conferencing
    Iab19_23,
    /// Net for Beginners
    Iab19_24,
    /// Network Security
    Iab19_25,
    /// Palmtops/PDAs
    Iab19_26,
    /// PC Support
    Iab19_27,
    /// Portable
    Iab19_28,
    /// Entertainment
    Iab19_29,
    /// Shareware/Freeware
    Iab19_30,
    /// Unix
    Iab19_31,
    /// Visual Basic
    Iab19_32,
    /// Web Clip Art
    Iab19_33,
    /// Web Design/HTML
    Iab19_34,
    /// Web Search
    Iab19_35,
    /// Windows
    Iab19_36,
    /// Travel
    Iab20,
    /// Adventure Travel
    Iab20_1,
    /// Africa
    Iab20_2,
    /// Air Travel
    Iab20_3,
    /// Australia & New Zealand
    Iab20_4,
    /// Bed & Breakfasts
    Iab20_5,
    /// Budget Travel
    Iab20_6,
    /// Business Travel
    Iab20_7,
    /// By US Locale
    Iab20_8,
    /// Camping
    Iab20_9,
    /// Canada
    Iab20_10,
    /// Caribbean
    Iab20_11,
    /// Cruises
    Iab20_12,
    /// Eastern Europe
    Iab20_13,
    /// Europe
    Iab20_14,
    /// France
    Iab20_15,
    /// Greece
    Iab20_16,
    /// Honeymoons/Getaways
    Iab20_17,
    /// Hotels
    Iab20_18,
    /// Italy
    Iab20_19,
    /// Japan
    Iab20_20,
    /// Mexico & Central America
    Iab20_21,
    /// National Parks
    Iab20_22,
    /// South America
    Iab20_23,
    /// Spas
    Iab20_24,
    /// Theme Parks
    Iab20_25,
    /// Traveling with Kids
    Iab20_26,
    /// United Kingdom
    Iab20_27,
    /// Real Estate
    Iab21,
    /// Apartments
    Iab21_1,
    /// Architects
    Iab21_2,
    /// Buying/Selling Homes
    Iab21_3,
    /// Shopping
    Iab22,
    /// Contests & Freebies
    Iab22_1,
    /// Couponing
    Iab22_2,
    /// Comparison
    Iab22_3,
    /// Engines
    Iab22_4,
    /// Religion & Spirituality
    Iab23,
    /// Alternative Religions
    Iab23_1,
    /// Atheism/Agnosticism
    Iab23_2,
    /// Buddhism
    Iab23_3,
    /// Catholicism
    Iab23_4,
    /// Christianity
    Iab23_5,
    /// Hinduism
    Iab23_6,
    /// Islam
    Iab23_7,
    /// Judaism
    Iab23_8,
    /// Latter-Day Saints
    Iab23_9,
    /// Pagan/Wiccan
    Iab23_10,
    /// Uncategorized
    Iab24,
    /// Non-Standard Content
    Iab25,
    /// Unmoderated UGC
    Iab25_1,
    /// Extreme Graphic/Explicit Violence
    Iab25_2,
    /// Pornography
    Iab25_3,
    /// Profane Content
    Iab25_4,
    /// Hate Content
    Iab25_5,
    /// Under Construction
    Iab25_6,
    /// Incentivized
    Iab25_7,
    /// Illegal Content
    Iab26,
    /// Illegal Content
    Iab26_1,
    /// Warez
    Iab26_2,
    /// Spyware/Malware
    Iab26_3,
    /// Copyright Infringement
    Iab26_4,
}

/// The name of subcategory `sub` of category `top`, or of the category itself where `sub`
/// is 0. Both numbers are less than 100, and `top` is not 0.
pub open spec fn name_of(top: int, sub: int) -> Seq<char> {
    if sub == 0 {
        if top < 10 {
            seq!['I', 'A', 'B', digit(top)]
        } else {
            seq!['I', 'A', 'B', digit(top / 10), digit(top % 10)]
        }
    } else if sub < 10 {
        if top < 10 {
            seq!['I', 'A', 'B', digit(top), '-', digit(sub)]
        } else {
            seq!['I', 'A', 'B', digit(top / 10), digit(top % 10), '-', digit(sub)]
        }
    } else {
        if top < 10 {
            seq!['I', 'A', 'B', digit(top), '-', digit(sub / 10), digit(sub % 10)]
        } else {
            seq![
                'I',
                'A',
                'B',
                digit(top / 10),
                digit(top % 10),
                '-',
                digit(sub / 10),
                digit(sub % 10),
            ]
        }
    }
}

/// The number of one or two digits that is written in `text` from `at` on, without a zero
/// in front, and the place behind it.
pub open spec fn number_at(text: Seq<char>, at: int) -> Option<(int, int)> {
    if 0 <= at < text.len() {
        match digit_value(text[at]) {
            Some(first) => {
                if first == 0 {
                    None
                } else if at + 1 < text.len() {
                    match digit_value(text[at + 1]) {
                        Some(second) => Some((10 * first + second, at + 2)),
                        None => Some((first, at + 1)),
                    }
                } else {
                    Some((first, at + 1))
                }
            },
            None => None,
        }
    } else {
        None
    }
}

/// The numbers of the category and the subcategory that `text` names, if it has the form
/// of a name.
pub open spec fn numbers_in(text: Seq<char>) -> Option<(int, int)> {
    if text.len() >= 3 && text[0] == 'I' && text[1] == 'A' && text[2] == 'B' {
        match number_at(text, 3) {
            Some((top, next)) => {
                if next == text.len() {
                    Some((top, 0))
                } else if text[next] == '-' {
                    match number_at(text, next + 1) {
                        Some((sub, end)) => if end == text.len() {
                            Some((top, sub))
                        } else {
                            None
                        },
                        None => None,
                    }
                } else {
                    None
                }
            },
            None => None,
        }
    } else {
        None
    }
}

/// A name is read as the numbers it was made of.
pub proof fn lemma_numbers_in_name(top: int, sub: int)
    requires
        1 <= top <= 99,
        0 <= sub <= 99,
    ensures
        numbers_in(name_of(top, sub)) == Some((top, sub)),
{
    let text = name_of(top, sub);
    if top < 10 {
        assert(digit_value(text[3]) == Some(top));
        if sub == 0 {
        } else if sub < 10 {
            assert(digit_value(text[4]) is None);
            assert(digit_value(text[5]) == Some(sub));
        } else {
            assert(digit_value(text[4]) is None);
            assert(digit_value(text[5]) == Some(sub / 10));
            assert(digit_value(text[6]) == Some(sub % 10));
        }
    } else {
        assert(digit_value(text[3]) == Some(top / 10));
        assert(digit_value(text[4]) == Some(top % 10));
        if sub == 0 {
        } else if sub < 10 {
            assert(digit_value(text[6]) == Some(sub));
        } else {
            assert(digit_value(text[6]) == Some(sub / 10));
            assert(digit_value(text[7]) == Some(sub % 10));
        }
    }
}

/// Only a name is read as numbers: the text is the name of the numbers read from it.
pub proof fn lemma_name_of_numbers(text: Seq<char>)
    ensures
        numbers_in(text) matches Some((top, sub)) ==> 1 <= top <= 99 && 0 <= sub <= 99 && text
            == name_of(top, sub),
{
    if let Some((top, sub)) = numbers_in(text) {
        let (_, next) = number_at(text, 3)->Some_0;
        assert(digit(digit_value(text[3])->Some_0) == text[3]);
        if next == 5 {
            assert(digit(digit_value(text[4])->Some_0) == text[4]);
        }
        if sub != 0 {
            let (_, end) = number_at(text, next + 1)->Some_0;
            assert(digit(digit_value(text[next + 1])->Some_0) == text[next + 1]);
            if end == next + 3 {
                assert(digit(digit_value(text[next + 2])->Some_0) == text[next + 2]);
            }
        }
        assert(text =~= name_of(top, sub));
    }
}

impl ContentCategory {
    /// The place in the list: a hundred times the number of the category, plus the
    /// number of the subcategory, which is 0 for the category itself.
    pub open spec fn place(self) -> int {
        match self {
            ContentCategory::Iab1 => 100,
            ContentCategory::Iab1_1 => 101,
            ContentCategory::Iab1_2 => 102,
            ContentCategory::Iab1_3 => 103,
            ContentCategory::Iab1_4 => 104,
            ContentCategory::Iab1_5 => 105,
            ContentCategory::Iab1_6 => 106,
            ContentCategory::Iab1_7 => 107,
            ContentCategory::Iab2 => 200,
            ContentCategory::Iab2_1 => 201,
            ContentCategory::Iab2_2 => 202,
            ContentCategory::Iab2_3 => 203,
            ContentCategory::Iab2_4 => 204,
            ContentCategory::Iab2_5 => 205,
            ContentCategory::Iab2_6 => 206,
            ContentCategory::Iab2_7 => 207,
            ContentCategory::Iab2_8 => 208,
            ContentCategory::Iab2_9 => 209,
            ContentCategory::Iab2_10 => 210,
            ContentCategory::Iab2_11 => 211,
            ContentCategory::Iab2_12 => 212,
            ContentCategory::Iab2_13 => 213,
            ContentCategory::Iab2_14 => 214,
            ContentCategory::Iab2_15 => 215,
            ContentCategory::Iab2_16 => 216,
            ContentCategory::Iab2_17 => 217,
            ContentCategory::Iab2_18 => 218,
            ContentCategory::Iab2_19 => 219,
            ContentCategory::Iab2_20 => 220,
            ContentCategory::Iab2_21 => 221,
            ContentCategory::Iab2_22 => 222,
            ContentCategory::Iab2_23 => 223,
            ContentCategory::Iab3 => 300,
            ContentCategory::Iab3_1 => 301,
            ContentCategory::Iab3_2 => 302,
            ContentCategory::Iab3_3 => 303,
            ContentCategory::Iab3_4 => 304,
            ContentCategory::Iab3_5 => 305,
            ContentCategory::Iab3_6 => 306,
            ContentCategory::Iab3_7 => 307,
            ContentCategory::Iab3_8 => 308,
            ContentCategory::Iab3_9 => 309,
            ContentCategory::Iab3_10 => 310,
            ContentCategory::Iab3_11 => 311,
            ContentCategory::Iab3_12 => 312,
            ContentCategory::Iab4 => 400,
            ContentCategory::Iab4_1 => 401,
            ContentCategory::Iab4_2 => 402,
            ContentCategory::Iab4_3 => 403,
            ContentCategory::Iab4_4 => 404,
            ContentCategory::Iab4_5 => 405,
            ContentCategory::Iab4_6 => 406,
            ContentCategory::Iab4_7 => 407,
            ContentCategory::Iab4_8 => 408,
            ContentCategory::Iab4_9 => 409,
            ContentCategory::Iab4_10 => 410,
            ContentCategory::Iab4_11 => 411,
            ContentCategory::Iab5 => 500,
            ContentCategory::Iab5_1 => 501,
            ContentCategory::Iab5_2 => 502,
            ContentCategory::Iab5_3 => 503,
            ContentCategory::Iab5_4 => 504,
            ContentCategory::Iab5_5 => 505,
            ContentCategory::Iab5_6 => 506,
            ContentCategory::Iab5_7 => 507,
            ContentCategory::Iab5_8 => 508,
            ContentCategory::Iab5_9 => 509,
            ContentCategory::Iab5_10 => 510,
            ContentCategory::Iab5_11 => 511,
            ContentCategory::Iab5_12 => 512,
            ContentCategory::Iab5_13 => 513,
            ContentCategory::Iab5_14 => 514,
            ContentCategory::Iab5_15 => 515,
            ContentCategory::Iab6 => 600,
            ContentCategory::Iab6_1 => 601,
            ContentCategory::Iab6_2 => 602,
            ContentCategory::Iab6_3 => 603,
            ContentCategory::Iab6_4 => 604,
            ContentCategory::Iab6_5 => 605,
            ContentCategory::Iab6_6 => 606,
            ContentCategory::Iab6_7 => 607,
            ContentCategory::Iab6_8 => 608,
            ContentCategory::Iab6_9 => 609,
            ContentCategory::Iab7 => 700,
            ContentCategory::Iab7_1 => 701,
            ContentCategory::Iab7_2 => 702,
            ContentCategory::Iab7_3 => 703,
            ContentCategory::Iab7_4 => 704,
            ContentCategory::Iab7_5 => 705,
            ContentCategory::Iab7_6 => 706,
            ContentCategory::Iab7_7 => 707,
            ContentCategory::Iab7_8 => 708,
            ContentCategory::Iab7_9 => 709,
            ContentCategory::Iab7_10 => 710,
            ContentCategory::Iab7_11 => 711,
            ContentCategory::Iab7_12 => 712,
            ContentCategory::Iab7_13 => 713,
            ContentCategory::Iab7_14 => 714,
            ContentCategory::Iab7_15 => 715,
            ContentCategory::Iab7_16 => 716,
            ContentCategory::Iab7_17 => 717,
            ContentCategory::Iab7_18 => 718,
            ContentCategory::Iab7_19 => 719,
            ContentCategory::Iab7_20 => 720,
            ContentCategory::Iab7_21 => 721,
            ContentCategory::Iab7_22 => 722,
            ContentCategory::Iab7_23 => 723,
            ContentCategory::Iab7_24 => 724,
            ContentCategory::Iab7_25 => 725,
            ContentCategory::Iab7_26 => 726,
            ContentCategory::Iab7_27 => 727,
            ContentCategory::Iab7_28 => 728,
            ContentCategory::Iab7_29 => 729,
            ContentCategory::Iab7_30 => 730,
            ContentCategory::Iab7_31 => 731,
            ContentCategory::Iab7_32 => 732,
            ContentCategory::Iab7_33 => 733,
            ContentCategory::Iab7_34 => 734,
            ContentCategory::Iab7_35 => 735,
            ContentCategory::Iab7_36 => 736,
            ContentCategory::Iab7_37 => 737,
            ContentCategory::Iab7_38 => 738,
            ContentCategory::Iab7_39 => 739,
            ContentCategory::Iab7_40 => 740,
            ContentCategory::Iab7_41 => 741,
            ContentCategory::Iab7_42 => 742,
            ContentCategory::Iab7_43 => 743,
            ContentCategory::Iab7_44 => 744,
            ContentCategory::Iab7_45 => 745,
            ContentCategory::Iab8 => 800,
            ContentCategory::Iab8_1 => 801,
            ContentCategory::Iab8_2 => 802,
            ContentCategory::Iab8_3 => 803,
            ContentCategory::Iab8_4 => 804,
            ContentCategory::Iab8_5 => 805,
            ContentCategory::Iab8_6 => 806,
            ContentCategory::Iab8_7 => 807,
            ContentCategory::Iab8_8 => 808,
            ContentCategory::Iab8_9 => 809,
            ContentCategory::Iab8_10 => 810,
            ContentCategory::Iab8_11 => 811,
            ContentCategory::Iab8_12 => 812,
            ContentCategory::Iab8_13 => 813,
            ContentCategory::Iab8_14 => 814,
            ContentCategory::Iab8_15 => 815,
            ContentCategory::Iab8_16 => 816,
            ContentCategory::Iab8_17 => 817,
            ContentCategory::Iab8_18 => 818,
            ContentCategory::Iab9 => 900,
            ContentCategory::Iab9_1 => 901,
            ContentCategory::Iab9_2 => 902,
            ContentCategory::Iab9_3 => 903,
            ContentCategory::Iab9_4 => 904,
            ContentCategory::Iab9_5 => 905,
            ContentCategory::Iab9_6 => 906,
            ContentCategory::Iab9_7 => 907,
            ContentCategory::Iab9_8 => 908,
            ContentCategory::Iab9_9 => 909,
            ContentCategory::Iab9_10 => 910,
            ContentCategory::Iab9_11 => 911,
            ContentCategory::Iab9_12 => 912,
            ContentCategory::Iab9_13 => 913,
            ContentCategory::Iab9_14 => 914,
            ContentCategory::Iab9_15 => 915,
            ContentCategory::Iab9_16 => 916,
            ContentCategory::Iab9_17 => 917,
            ContentCategory::Iab9_18 => 918,
            ContentCategory::Iab9_19 => 919,
            ContentCategory::Iab9_20 => 920,
            ContentCategory::Iab9_21 => 921,
            ContentCategory::Iab9_22 => 922,
            ContentCategory::Iab9_23 => 923,
            ContentCategory::Iab9_24 => 924,
            ContentCategory::Iab9_25 => 925,
            ContentCategory::Iab9_26 => 926,
            ContentCategory::Iab9_27 => 927,
            ContentCategory::Iab9_28 => 928,
            ContentCategory::Iab9_29 => 929,
            ContentCategory::Iab9_30 => 930,
            ContentCategory::Iab9_31 => 931,
            ContentCategory::Iab10 => 1000,
            ContentCategory::Iab10_1 => 1001,
            ContentCategory::Iab10_2 => 1002,
            ContentCategory::Iab10_3 => 1003,
            ContentCategory::Iab10_4 => 1004,
            ContentCategory::Iab10_5 => 1005,
            ContentCategory::Iab10_6 => 1006,
            ContentCategory::Iab10_7 => 1007,
            ContentCategory::Iab10_8 => 1008,
            ContentCategory::Iab10_9 => 1009,
            ContentCategory::Iab11 => 1100,
            ContentCategory::Iab11_1 => 1101,
            ContentCategory::Iab11_2 => 1102,
            ContentCategory::Iab11_3 => 1103,
            ContentCategory::Iab11_4 => 1104,
            ContentCategory::Iab11_5 => 1105,
            ContentCategory::Iab12 => 1200,
            ContentCategory::Iab12_1 => 1201,
            ContentCategory::Iab12_2 => 1202,
            ContentCategory::Iab12_3 => 1203,
            ContentCategory::Iab13 => 1300,
            ContentCategory::Iab13_1 => 1301,
            ContentCategory::Iab13_2 => 1302,
            ContentCategory::Iab13_3 => 1303,
            ContentCategory::Iab13_4 => 1304,
            ContentCategory::Iab13_5 => 1305,
            ContentCategory::Iab13_6 => 1306,
            ContentCategory::Iab13_7 => 1307,
            ContentCategory::Iab13_8 => 1308,
            ContentCategory::Iab13_9 => 1309,
            ContentCategory::Iab13_10 => 1310,
            ContentCategory::Iab13_11 => 1311,
            ContentCategory::Iab13_12 => 1312,
            ContentCategory::Iab14 => 1400,
            ContentCategory::Iab14_1 => 1401,
            ContentCategory::Iab14_2 => 1402,
            ContentCategory::Iab14_3 => 1403,
            ContentCategory::Iab14_4 => 1404,
            ContentCategory::Iab14_5 => 1405,
            ContentCategory::Iab14_6 => 1406,
            ContentCategory::Iab14_7 => 1407,
            ContentCategory::Iab14_8 => 1408,
            ContentCategory::Iab15 => 1500,
            ContentCategory::Iab15_1 => 1501,
            ContentCategory::Iab15_2 => 1502,
            ContentCategory::Iab15_3 => 1503,
            ContentCategory::Iab15_4 => 1504,
            ContentCategory::Iab15_5 => 1505,
            ContentCategory::Iab15_6 => 1506,
            ContentCategory::Iab15_7 => 1507,
            ContentCategory::Iab15_8 => 1508,
            ContentCategory::Iab15_9 => 1509,
            ContentCategory::Iab15_10 => 1510,
            ContentCategory::Iab16 => 1600,
            ContentCategory::Iab16_1 => 1601,
            ContentCategory::Iab16_2 => 1602,
            ContentCategory::Iab16_3 => 1603,
            ContentCategory::Iab16_4 => 1604,
            ContentCategory::Iab16_5 => 1605,
            ContentCategory::Iab16_6 => 1606,
            ContentCategory::Iab16_7 => 1607,
            ContentCategory::Iab17 => 1700,
            ContentCategory::Iab17_1 => 1701,
            ContentCategory::Iab17_2 => 1702,
            ContentCategory::Iab17_3 => 1703,
            ContentCategory::Iab17_4 => 1704,
            ContentCategory::Iab17_5 => 1705,
            ContentCategory::Iab17_6 => 1706,
            ContentCategory::Iab17_7 => 1707,
            ContentCategory::Iab17_8 => 1708,
            ContentCategory::Iab17_9 => 1709,
            ContentCategory::Iab17_10 => 1710,
            ContentCategory::Iab17_11 => 1711,
            ContentCategory::Iab17_12 => 1712,
            ContentCategory::Iab17_13 => 1713,
            ContentCategory::Iab17_14 => 1714,
            ContentCategory::Iab17_15 => 1715,
            ContentCategory::Iab17_16 => 1716,
            ContentCategory::Iab17_17 => 1717,
            ContentCategory::Iab17_18 => 1718,
            ContentCategory::Iab17_19 => 1719,
            ContentCategory::Iab17_20 => 1720,
            ContentCategory::Iab17_21 => 1721,
            ContentCategory::Iab17_22 => 1722,
            ContentCategory::Iab17_23 => 1723,
            ContentCategory::Iab17_24 => 1724,
            ContentCategory::Iab17_25 => 1725,
            ContentCategory::Iab17_26 => 1726,
            ContentCategory::Iab17_27 => 1727,
            ContentCategory::Iab17_28 => 1728,
            ContentCategory::Iab17_29 => 1729,
            ContentCategory::Iab17_30 => 1730,
            ContentCategory::Iab17_31 => 1731,
            ContentCategory::Iab17_32 => 1732,
            ContentCategory::Iab17_33 => 1733,
            ContentCategory::Iab17_34 => 1734,
            ContentCategory::Iab17_35 => 1735,
            ContentCategory::Iab17_36 => 1736,
            ContentCategory::Iab17_37 => 1737,
            ContentCategory::Iab17_38 => 1738,
            ContentCategory::Iab17_39 => 1739,
            ContentCategory::Iab17_40 => 1740,
            ContentCategory::Iab17_41 => 1741,
            ContentCategory::Iab17_42 => 1742,
            ContentCategory::Iab17_43 => 1743,
            ContentCategory::Iab17_44 => 1744,
            ContentCategory::Iab18 => 1800,
            ContentCategory::Iab18_1 => 1801,
            ContentCategory::Iab18_2 => 1802,
            ContentCategory::Iab18_3 => 1803,
            ContentCategory::Iab18_4 => 1804,
            ContentCategory::Iab18_5 => 1805,
            ContentCategory::Iab18_6 => 1806,
            ContentCategory::Iab19 => 1900,
            ContentCategory::Iab19_1 => 1901,
            ContentCategory::Iab19_2 => 1902,
            ContentCategory::Iab19_3 => 1903,
            ContentCategory::Iab19_4 => 1904,
            ContentCategory::Iab19_5 => 1905,
            ContentCategory::Iab19_6 => 1906,
            ContentCategory::Iab19_7 => 1907,
            ContentCategory::Iab19_8 => 1908,
            ContentCategory::Iab19_9 => 1909,
            ContentCategory::Iab19_10 => 1910,
            ContentCategory::Iab19_11 => 1911,
            ContentCategory::Iab19_12 => 1912,
            ContentCategory::Iab19_13 => 1913,
            ContentCategory::Iab19_14 => 1914,
            ContentCategory::Iab19_15 => 1915,
            ContentCategory::Iab19_16 => 1916,
            ContentCategory::Iab19_17 => 1917,
            ContentCategory::Iab19_18 => 1918,
            ContentCategory::Iab19_19 => 1919,
            ContentCategory::Iab19_20 => 1920,
            ContentCategory::Iab19_21 => 1921,
            ContentCategory::Iab19_22 => 1922,
            ContentCategory::Iab19_23 => 1923,
            ContentCategory::Iab19_24 => 1924,
            ContentCategory::Iab19_25 => 1925,
            ContentCategory::Iab19_26 => 1926,
            ContentCategory::Iab19_27 => 1927,
            ContentCategory::Iab19_28 => 1928,
            ContentCategory::Iab19_29 => 1929,
            ContentCategory::Iab19_30 => 1930,
            ContentCategory::Iab19_31 => 1931,
            ContentCategory::Iab19_32 => 1932,
            ContentCategory::Iab19_33 => 1933,
            ContentCategory::Iab19_34 => 1934,
            ContentCategory::Iab19_35 => 1935,
            ContentCategory::Iab19_36 => 1936,
            ContentCategory::Iab20 => 2000,
            ContentCategory::Iab20_1 => 2001,
            ContentCategory::Iab20_2 => 2002,
            ContentCategory::Iab20_3 => 2003,
            ContentCategory::Iab20_4 => 2004,
            ContentCategory::Iab20_5 => 2005,
            ContentCategory::Iab20_6 => 2006,
            ContentCategory::Iab20_7 => 2007,
            ContentCategory::Iab20_8 => 2008,
            ContentCategory::Iab20_9 => 2009,
            ContentCategory::Iab20_10 => 2010,
            ContentCategory::Iab20_11 => 2011,
            ContentCategory::Iab20_12 => 2012,
            ContentCategory::Iab20_13 => 2013,
            ContentCategory::Iab20_14 => 2014,
            ContentCategory::Iab20_15 => 2015,
            ContentCategory::Iab20_16 => 2016,
            ContentCategory::Iab20_17 => 2017,
            ContentCategory::Iab20_18 => 2018,
            ContentCategory::Iab20_19 => 2019,
            ContentCategory::Iab20_20 => 2020,
            ContentCategory::Iab20_21 => 2021,
            ContentCategory::Iab20_22 => 2022,
            ContentCategory::Iab20_23 => 2023,
            ContentCategory::Iab20_24 => 2024,
            ContentCategory::Iab20_25 => 2025,
            ContentCategory::Iab20_26 => 2026,
            ContentCategory::Iab20_27 => 2027,
            ContentCategory::Iab21 => 2100,
            ContentCategory::Iab21_1 => 2101,
            ContentCategory::Iab21_2 => 2102,
            ContentCategory::Iab21_3 => 2103,
            ContentCategory::Iab22 => 2200,
            ContentCategory::Iab22_1 => 2201,
            ContentCategory::Iab22_2 => 2202,
            ContentCategory::Iab22_3 => 2203,
            ContentCategory::Iab22_4 => 2204,
            ContentCategory::Iab23 => 2300,
            ContentCategory::Iab23_1 => 2301,
            ContentCategory::Iab23_2 => 2302,
            ContentCategory::Iab23_3 => 2303,
            ContentCategory::Iab23_4 => 2304,
            ContentCategory::Iab23_5 => 2305,
            ContentCategory::Iab23_6 => 2306,
            ContentCategory::Iab23_7 => 2307,
            ContentCategory::Iab23_8 => 2308,
            ContentCategory::Iab23_9 => 2309,
            ContentCategory::Iab23_10 => 2310,
            ContentCategory::Iab24 => 2400,
            ContentCategory::Iab25 => 2500,
            ContentCategory::Iab25_1 => 2501,
            ContentCategory::Iab25_2 => 2502,
            ContentCategory::Iab25_3 => 2503,
            ContentCategory::Iab25_4 => 2504,
            ContentCategory::Iab25_5 => 2505,
            ContentCategory::Iab25_6 => 2506,
            ContentCategory::Iab25_7 => 2507,
            ContentCategory::Iab26 => 2600,
            ContentCategory::Iab26_1 => 2601,
            ContentCategory::Iab26_2 => 2602,
            ContentCategory::Iab26_3 => 2603,
            ContentCategory::Iab26_4 => 2604,
        }
    }

    /// The entry that has this place in the list, if there is one.
    pub open spec fn of_place(place: int) -> Option<ContentCategory> {
        if place < 200 {
            if place == 100 {
                Some(ContentCategory::Iab1)
            } else if place == 101 {
                Some(ContentCategory::Iab1_1)
            } else if place == 102 {
                Some(ContentCategory::Iab1_2)
            } else if place == 103 {
                Some(ContentCategory::Iab1_3)
            } else if place == 104 {
                Some(ContentCategory::Iab1_4)
            } else if place == 105 {
                Some(ContentCategory::Iab1_5)
            } else if place == 106 {
                Some(ContentCategory::Iab1_6)
            } else if place == 107 {
                Some(ContentCategory::Iab1_7)
            } else {
                None
            }
        } else if place < 300 {
            if place == 200 {
                Some(ContentCategory::Iab2)
            } else if place == 201 {
                Some(ContentCategory::Iab2_1)
            } else if place == 202 {
                Some(ContentCategory::Iab2_2)
            } else if place == 203 {
                Some(ContentCategory::Iab2_3)
            } else if place == 204 {
                Some(ContentCategory::Iab2_4)
            } else if place == 205 {
                Some(ContentCategory::Iab2_5)
            } else if place == 206 {
                Some(ContentCategory::Iab2_6)
            } else if place == 207 {
                Some(ContentCategory::Iab2_7)
            } else if place == 208 {
                Some(ContentCategory::Iab2_8)
            } else if place == 209 {
                Some(ContentCategory::Iab2_9)
            } else if place == 210 {
                Some(ContentCategory::Iab2_10)
            } else if place == 211 {
                Some(ContentCategory::Iab2_11)
            } else if place == 212 {
                Some(ContentCategory::Iab2_12)
            } else if place == 213 {
                Some(ContentCategory::Iab2_13)
            } else if place == 214 {
                Some(ContentCategory::Iab2_14)
            } else if place == 215 {
                Some(ContentCategory::Iab2_15)
            } else if place == 216 {
                Some(ContentCategory::Iab2_16)
            } else if place == 217 {
                Some(ContentCategory::Iab2_17)
            } else if place == 218 {
                Some(ContentCategory::Iab2_18)
            } else if place == 219 {
                Some(ContentCategory::Iab2_19)
            } else if place == 220 {
                Some(ContentCategory::Iab2_20)
            } else if place == 221 {
                Some(ContentCategory::Iab2_21)
            } else if place == 222 {
                Some(ContentCategory::Iab2_22)
            } else if place == 223 {
                Some(ContentCategory::Iab2_23)
            } else {
                None
            }
        } else if place < 400 {
            if place == 300 {
                Some(ContentCategory::Iab3)
            } else if place == 301 {
                Some(ContentCategory::Iab3_1)
            } else if place == 302 {
                Some(ContentCategory::Iab3_2)
            } else if place == 303 {
                Some(ContentCategory::Iab3_3)
            } else if place == 304 {
                Some(ContentCategory::Iab3_4)
            } else if place == 305 {
                Some(ContentCategory::Iab3_5)
            } else if place == 306 {
                Some(ContentCategory::Iab3_6)
            } else if place == 307 {
                Some(ContentCategory::Iab3_7)
            } else if place == 308 {
                Some(ContentCategory::Iab3_8)
            } else if place == 309 {
                Some(ContentCategory::Iab3_9)
            } else if place == 310 {
                Some(ContentCategory::Iab3_10)
            } else if place == 311 {
                Some(ContentCategory::Iab3_11)
            } else if place == 312 {
                Some(ContentCategory::Iab3_12)
            } else {
                None
            }
        } else if place < 500 {
            if place == 400 {
                Some(ContentCategory::Iab4)
            } else if place == 401 {
                Some(ContentCategory::Iab4_1)
            } else if place == 402 {
                Some(ContentCategory::Iab4_2)
            } else if place == 403 {
                Some(ContentCategory::Iab4_3)
            } else if place == 404 {
                Some(ContentCategory::Iab4_4)
            } else if place == 405 {
                Some(ContentCategory::Iab4_5)
            } else if place == 406 {
                Some(ContentCategory::Iab4_6)
            } else if place == 407 {
                Some(ContentCategory::Iab4_7)
            } else if place == 408 {
                Some(ContentCategory::Iab4_8)
            } else if place == 409 {
                Some(ContentCategory::Iab4_9)
            } else if place == 410 {
                Some(ContentCategory::Iab4_10)
            } else if place == 411 {
                Some(ContentCategory::Iab4_11)
            } else {
                None
            }
        } else if place < 600 {
            if place == 500 {
                Some(ContentCategory::Iab5)
            } else if place == 501 {
                Some(ContentCategory::Iab5_1)
            } else if place == 502 {
                Some(ContentCategory::Iab5_2)
            } else if place == 503 {
                Some(ContentCategory::Iab5_3)
            } else if place == 504 {
                Some(ContentCategory::Iab5_4)
            } else if place == 505 {
                Some(ContentCategory::Iab5_5)
            } else if place == 506 {
                Some(ContentCategory::Iab5_6)
            } else if place == 507 {
                Some(ContentCategory::Iab5_7)
            } else if place == 508 {
                Some(ContentCategory::Iab5_8)
            } else if place == 509 {
                Some(ContentCategory::Iab5_9)
            } else if place == 510 {
                Some(ContentCategory::Iab5_10)
            } else if place == 511 {
                Some(ContentCategory::Iab5_11)
            } else if place == 512 {
                Some(ContentCategory::Iab5_12)
            } else if place == 513 {
                Some(ContentCategory::Iab5_13)
            } else if place == 514 {
                Some(ContentCategory::Iab5_14)
            } else if place == 515 {
                Some(ContentCategory::Iab5_15)
            } else {
                None
            }
        } else if place < 700 {
            if place == 600 {
                Some(ContentCategory::Iab6)
            } else if place == 601 {
                Some(ContentCategory::Iab6_1)
            } else if place == 602 {
                Some(ContentCategory::Iab6_2)
            } else if place == 603 {
                Some(ContentCategory::Iab6_3)
            } else if place == 604 {
                Some(ContentCategory::Iab6_4)
            } else if place == 605 {
                Some(ContentCategory::Iab6_5)
            } else if place == 606 {
                Some(ContentCategory::Iab6_6)
            } else if place == 607 {
                Some(ContentCategory::Iab6_7)
            } else if place == 608 {
                Some(ContentCategory::Iab6_8)
            } else if place == 609 {
                Some(ContentCategory::Iab6_9)
            } else {
                None
            }
        } else if place < 800 {
            if place == 700 {
                Some(ContentCategory::Iab7)
            } else if place == 701 {
                Some(ContentCategory::Iab7_1)
            } else if place == 702 {
                Some(ContentCategory::Iab7_2)
            } else if place == 703 {
                Some(ContentCategory::Iab7_3)
            } else if place == 704 {
                Some(ContentCategory::Iab7_4)
            } else if place == 705 {
                Some(ContentCategory::Iab7_5)
            } else if place == 706 {
                Some(ContentCategory::Iab7_6)
            } else if place == 707 {
                Some(ContentCategory::Iab7_7)
            } else if place == 708 {
                Some(ContentCategory::Iab7_8)
            } else if place == 709 {
                Some(ContentCategory::Iab7_9)
            } else if place == 710 {
                Some(ContentCategory::Iab7_10)
            } else if place == 711 {
                Some(ContentCategory::Iab7_11)
            } else if place == 712 {
                Some(ContentCategory::Iab7_12)
            } else if place == 713 {
                Some(ContentCategory::Iab7_13)
            } else if place == 714 {
                Some(ContentCategory::Iab7_14)
            } else if place == 715 {
                Some(ContentCategory::Iab7_15)
            } else if place == 716 {
                Some(ContentCategory::Iab7_16)
            } else if place == 717 {
                Some(ContentCategory::Iab7_17)
            } else if place == 718 {
                Some(ContentCategory::Iab7_18)
            } else if place == 719 {
                Some(ContentCategory::Iab7_19)
            } else if place == 720 {
                Some(ContentCategory::Iab7_20)
            } else if place == 721 {
                Some(ContentCategory::Iab7_21)
            } else if place == 722 {
                Some(ContentCategory::Iab7_22)
            } else if place == 723 {
                Some(ContentCategory::Iab7_23)
            } else if place == 724 {
                Some(ContentCategory::Iab7_24)
            } else if place == 725 {
                Some(ContentCategory::Iab7_25)
            } else if place == 726 {
                Some(ContentCategory::Iab7_26)
            } else if place == 727 {
                Some(ContentCategory::Iab7_27)
            } else if place == 728 {
                Some(ContentCategory::Iab7_28)
            } else if place == 729 {
                Some(ContentCategory::Iab7_29)
            } else if place == 730 {
                Some(ContentCategory::Iab7_30)
            } else if place == 731 {
                Some(ContentCategory::Iab7_31)
            } else if place == 732 {
                Some(ContentCategory::Iab7_32)
            } else if place == 733 {
                Some(ContentCategory::Iab7_33)
            } else if place == 734 {
                Some(ContentCategory::Iab7_34)
            } else if place == 735 {
                Some(ContentCategory::Iab7_35)
            } else if place == 736 {
                Some(ContentCategory::Iab7_36)
            } else if place == 737 {
                Some(ContentCategory::Iab7_37)
            } else if place == 738 {
                Some(ContentCategory::Iab7_38)
            } else if place == 739 {
                Some(ContentCategory::Iab7_39)
            } else if place == 740 {
                Some(ContentCategory::Iab7_40)
            } else if place == 741 {
                Some(ContentCategory::Iab7_41)
            } else if place == 742 {
                Some(ContentCategory::Iab7_42)
            } else if place == 743 {
                Some(ContentCategory::Iab7_43)
            } else if place == 744 {
                Some(ContentCategory::Iab7_44)
            } else if place == 745 {
                Some(ContentCategory::Iab7_45)
            } else {
                None
            }
        } else if place < 900 {
            if place == 800 {
                Some(ContentCategory::Iab8)
            } else if place == 801 {
                Some(ContentCategory::Iab8_1)
            } else if place == 802 {
                Some(ContentCategory::Iab8_2)
            } else if place == 803 {
                Some(ContentCategory::Iab8_3)
            } else if place == 804 {
                Some(ContentCategory::Iab8_4)
            } else if place == 805 {
                Some(ContentCategory::Iab8_5)
            } else if place == 806 {
                Some(ContentCategory::Iab8_6)
            } else if place == 807 {
                Some(ContentCategory::Iab8_7)
            } else if place == 808 {
                Some(ContentCategory::Iab8_8)
            } else if place == 809 {
                Some(ContentCategory::Iab8_9)
            } else if place == 810 {
                Some(ContentCategory::Iab8_10)
            } else if place == 811 {
                Some(ContentCategory::Iab8_11)
            } else if place == 812 {
                Some(ContentCategory::Iab8_12)
            } else if place == 813 {
                Some(ContentCategory::Iab8_13)
            } else if place == 814 {
                Some(ContentCategory::Iab8_14)
            } else if place == 815 {
                Some(ContentCategory::Iab8_15)
            } else if place == 816 {
                Some(ContentCategory::Iab8_16)
            } else if place == 817 {
                Some(ContentCategory::Iab8_17)
            } else if place == 818 {
                Some(ContentCategory::Iab8_18)
            } else {
                None
            }
        } else if place < 1000 {
            if place == 900 {
                Some(ContentCategory::Iab9)
            } else if place == 901 {
                Some(ContentCategory::Iab9_1)
            } else if place == 902 {
                Some(ContentCategory::Iab9_2)
            } else if place == 903 {
                Some(ContentCategory::Iab9_3)
            } else if place == 904 {
                Some(ContentCategory::Iab9_4)
            } else if place == 905 {
                Some(ContentCategory::Iab9_5)
            } else if place == 906 {
                Some(ContentCategory::Iab9_6)
            } else if place == 907 {
                Some(ContentCategory::Iab9_7)
            } else if place == 908 {
                Some(ContentCategory::Iab9_8)
            } else if place == 909 {
                Some(ContentCategory::Iab9_9)
            } else if place == 910 {
                Some(ContentCategory::Iab9_10)
            } else if place == 911 {
                Some(ContentCategory::Iab9_11)
            } else if place == 912 {
                Some(ContentCategory::Iab9_12)
            } else if place == 913 {
                Some(ContentCategory::Iab9_13)
            } else if place == 914 {
                Some(ContentCategory::Iab9_14)
            } else if place == 915 {
                Some(ContentCategory::Iab9_15)
            } else if place == 916 {
                Some(ContentCategory::Iab9_16)
            } else if place == 917 {
                Some(ContentCategory::Iab9_17)
            } else if place == 918 {
                Some(ContentCategory::Iab9_18)
            } else if place == 919 {
                Some(ContentCategory::Iab9_19)
            } else if place == 920 {
                Some(ContentCategory::Iab9_20)
            } else if place == 921 {
                Some(ContentCategory::Iab9_21)
            } else if place == 922 {
                Some(ContentCategory::Iab9_22)
            } else if place == 923 {
                Some(ContentCategory::Iab9_23)
            } else if place == 924 {
                Some(ContentCategory::Iab9_24)
            } else if place == 925 {
                Some(ContentCategory::Iab9_25)
            } else if place == 926 {
                Some(ContentCategory::Iab9_26)
            } else if place == 927 {
                Some(ContentCategory::Iab9_27)
            } else if place == 928 {
                Some(ContentCategory::Iab9_28)
            } else if place == 929 {
                Some(ContentCategory::Iab9_29)
            } else if place == 930 {
                Some(ContentCategory::Iab9_30)
            } else if place == 931 {
                Some(ContentCategory::Iab9_31)
            } else {
                None
            }
        } else if place < 1100 {
            if place == 1000 {
                Some(ContentCategory::Iab10)
            } else if place == 1001 {
                Some(ContentCategory::Iab10_1)
            } else if place == 1002 {
                Some(ContentCategory::Iab10_2)
            } else if place == 1003 {
                Some(ContentCategory::Iab10_3)
            } else if place == 1004 {
                Some(ContentCategory::Iab10_4)
            } else if place == 1005 {
                Some(ContentCategory::Iab10_5)
            } else if place == 1006 {
                Some(ContentCategory::Iab10_6)
            } else if place == 1007 {
                Some(ContentCategory::Iab10_7)
            } else if place == 1008 {
                Some(ContentCategory::Iab10_8)
            } else if place == 1009 {
                Some(ContentCategory::Iab10_9)
            } else {
                None
            }
        } else if place < 1200 {
            if place == 1100 {
                Some(ContentCategory::Iab11)
            } else if place == 1101 {
                Some(ContentCategory::Iab11_1)
            } else if place == 1102 {
                Some(ContentCategory::Iab11_2)
            } else if place == 1103 {
                Some(ContentCategory::Iab11_3)
            } else if place == 1104 {
                Some(ContentCategory::Iab11_4)
            } else if place == 1105 {
                Some(ContentCategory::Iab11_5)
            } else {
                None
            }
        } else if place < 1300 {
            if place == 1200 {
                Some(ContentCategory::Iab12)
            } else if place == 1201 {
                Some(ContentCategory::Iab12_1)
            } else if place == 1202 {
                Some(ContentCategory::Iab12_2)
            } else if place == 1203 {
                Some(ContentCategory::Iab12_3)
            } else {
                None
            }
        } else if place < 1400 {
            if place == 1300 {
                Some(ContentCategory::Iab13)
            } else if place == 1301 {
                Some(ContentCategory::Iab13_1)
            } else if place == 1302 {
                Some(ContentCategory::Iab13_2)
            } else if place == 1303 {
                Some(ContentCategory::Iab13_3)
            } else if place == 1304 {
                Some(ContentCategory::Iab13_4)
            } else if place == 1305 {
                Some(ContentCategory::Iab13_5)
            } else if place == 1306 {
                Some(ContentCategory::Iab13_6)
            } else if place == 1307 {
                Some(ContentCategory::Iab13_7)
            } else if place == 1308 {
                Some(ContentCategory::Iab13_8)
            } else if place == 1309 {
                Some(ContentCategory::Iab13_9)
            } else if place == 1310 {
                Some(ContentCategory::Iab13_10)
            } else if place == 1311 {
                Some(ContentCategory::Iab13_11)
            } else if place == 1312 {
                Some(ContentCategory::Iab13_12)
            } else {
                None
            }
        } else if place < 1500 {
            if place == 1400 {
                Some(ContentCategory::Iab14)
            } else if place == 1401 {
                Some(ContentCategory::Iab14_1)
            } else if place == 1402 {
                Some(ContentCategory::Iab14_2)
            } else if place == 1403 {
                Some(ContentCategory::Iab14_3)
            } else if place == 1404 {
                Some(ContentCategory::Iab14_4)
            } else if place == 1405 {
                Some(ContentCategory::Iab14_5)
            } else if place == 1406 {
                Some(ContentCategory::Iab14_6)
            } else if place == 1407 {
                Some(ContentCategory::Iab14_7)
            } else if place == 1408 {
                Some(ContentCategory::Iab14_8)
            } else {
                None
            }
        } else if place < 1600 {
            if place == 1500 {
                Some(ContentCategory::Iab15)
            } else if place == 1501 {
                Some(ContentCategory::Iab15_1)
            } else if place == 1502 {
                Some(ContentCategory::Iab15_2)
            } else if place == 1503 {
                Some(ContentCategory::Iab15_3)
            } else if place == 1504 {
                Some(ContentCategory::Iab15_4)
            } else if place == 1505 {
                Some(ContentCategory::Iab15_5)
            } else if place == 1506 {
                Some(ContentCategory::Iab15_6)
            } else if place == 1507 {
                Some(ContentCategory::Iab15_7)
            } else if place == 1508 {
                Some(ContentCategory::Iab15_8)
            } else if place == 1509 {
                Some(ContentCategory::Iab15_9)
            } else if place == 1510 {
                Some(ContentCategory::Iab15_10)
            } else {
                None
            }
        } else if place < 1700 {
            if place == 1600 {
                Some(ContentCategory::Iab16)
            } else if place == 1601 {
                Some(ContentCategory::Iab16_1)
            } else if place == 1602 {
                Some(ContentCategory::Iab16_2)
            } else if place == 1603 {
                Some(ContentCategory::Iab16_3)
            } else if place == 1604 {
                Some(ContentCategory::Iab16_4)
            } else if place == 1605 {
                Some(ContentCategory::Iab16_5)
            } else if place == 1606 {
                Some(ContentCategory::Iab16_6)
            } else if place == 1607 {
                Some(ContentCategory::Iab16_7)
            } else {
                None
            }
        } else if place < 1800 {
            if place == 1700 {
                Some(ContentCategory::Iab17)
            } else if place == 1701 {
                Some(ContentCategory::Iab17_1)
            } else if place == 1702 {
                Some(ContentCategory::Iab17_2)
            } else if place == 1703 {
                Some(ContentCategory::Iab17_3)
            } else if place == 1704 {
                Some(ContentCategory::Iab17_4)
            } else if place == 1705 {
                Some(ContentCategory::Iab17_5)
            } else if place == 1706 {
                Some(ContentCategory::Iab17_6)
            } else if place == 1707 {
                Some(ContentCategory::Iab17_7)
            } else if place == 1708 {
                Some(ContentCategory::Iab17_8)
            } else if place == 1709 {
                Some(ContentCategory::Iab17_9)
            } else if place == 1710 {
                Some(ContentCategory::Iab17_10)
            } else if place == 1711 {
                Some(ContentCategory::Iab17_11)
            } else if place == 1712 {
                Some(ContentCategory::Iab17_12)
            } else if place == 1713 {
                Some(ContentCategory::Iab17_13)
            } else if place == 1714 {
                Some(ContentCategory::Iab17_14)
            } else if place == 1715 {
                Some(ContentCategory::Iab17_15)
            } else if place == 1716 {
                Some(ContentCategory::Iab17_16)
            } else if place == 1717 {
                Some(ContentCategory::Iab17_17)
            } else if place == 1718 {
                Some(ContentCategory::Iab17_18)
            } else if place == 1719 {
                Some(ContentCategory::Iab17_19)
            } else if place == 1720 {
                Some(ContentCategory::Iab17_20)
            } else if place == 1721 {
                Some(ContentCategory::Iab17_21)
            } else if place == 1722 {
                Some(ContentCategory::Iab17_22)
            } else if place == 1723 {
                Some(ContentCategory::Iab17_23)
            } else if place == 1724 {
                Some(ContentCategory::Iab17_24)
            } else if place == 1725 {
                Some(ContentCategory::Iab17_25)
            } else if place == 1726 {
                Some(ContentCategory::Iab17_26)
            } else if place == 1727 {
                Some(ContentCategory::Iab17_27)
            } else if place == 1728 {
                Some(ContentCategory::Iab17_28)
            } else if place == 1729 {
                Some(ContentCategory::Iab17_29)
            } else if place == 1730 {
                Some(ContentCategory::Iab17_30)
            } else if place == 1731 {
                Some(ContentCategory::Iab17_31)
            } else if place == 1732 {
                Some(ContentCategory::Iab17_32)
            } else if place == 1733 {
                Some(ContentCategory::Iab17_33)
            } else if place == 1734 {
                Some(ContentCategory::Iab17_34)
            } else if place == 1735 {
                Some(ContentCategory::Iab17_35)
            } else if place == 1736 {
                Some(ContentCategory::Iab17_36)
            } else if place == 1737 {
                Some(ContentCategory::Iab17_37)
            } else if place == 1738 {
                Some(ContentCategory::Iab17_38)
            } else if place == 1739 {
                Some(ContentCategory::Iab17_39)
            } else if place == 1740 {
                Some(ContentCategory::Iab17_40)
            } else if place == 1741 {
                Some(ContentCategory::Iab17_41)
            } else if place == 1742 {
                Some(ContentCategory::Iab17_42)
            } else if place == 1743 {
                Some(ContentCategory::Iab17_43)
            } else if place == 1744 {
                Some(ContentCategory::Iab17_44)
            } else {
                None
            }
        } else if place < 1900 {
            if place == 1800 {
                Some(ContentCategory::Iab18)
            } else if place == 1801 {
                Some(ContentCategory::Iab18_1)
            } else if place == 1802 {
                Some(ContentCategory::Iab18_2)
            } else if place == 1803 {
                Some(ContentCategory::Iab18_3)
            } else if place == 1804 {
                Some(ContentCategory::Iab18_4)
            } else if place == 1805 {
                Some(ContentCategory::Iab18_5)
            } else if place == 1806 {
                Some(ContentCategory::Iab18_6)
            } else {
                None
            }
        } else if place < 2000 {
            if place == 1900 {
                Some(ContentCategory::Iab19)
            } else if place == 1901 {
                Some(ContentCategory::Iab19_1)
            } else if place == 1902 {
                Some(ContentCategory::Iab19_2)
            } else if place == 1903 {
                Some(ContentCategory::Iab19_3)
            } else if place == 1904 {
                Some(ContentCategory::Iab19_4)
            } else if place == 1905 {
                Some(ContentCategory::Iab19_5)
            } else if place == 1906 {
                Some(ContentCategory::Iab19_6)
            } else if place == 1907 {
                Some(ContentCategory::Iab19_7)
            } else if place == 1908 {
                Some(ContentCategory::Iab19_8)
            } else if place == 1909 {
                Some(ContentCategory::Iab19_9)
            } else if place == 1910 {
                Some(ContentCategory::Iab19_10)
            } else if place == 1911 {
                Some(ContentCategory::Iab19_11)
            } else if place == 1912 {
                Some(ContentCategory::Iab19_12)
            } else if place == 1913 {
                Some(ContentCategory::Iab19_13)
            } else if place == 1914 {
                Some(ContentCategory::Iab19_14)
            } else if place == 1915 {
                Some(ContentCategory::Iab19_15)
            } else if place == 1916 {
                Some(ContentCategory::Iab19_16)
            } else if place == 1917 {
                Some(ContentCategory::Iab19_17)
            } else if place == 1918 {
                Some(ContentCategory::Iab19_18)
            } else if place == 1919 {
                Some(ContentCategory::Iab19_19)
            } else if place == 1920 {
                Some(ContentCategory::Iab19_20)
            } else if place == 1921 {
                Some(ContentCategory::Iab19_21)
            } else if place == 1922 {
                Some(ContentCategory::Iab19_22)
            } else if place == 1923 {
                Some(ContentCategory::Iab19_23)
            } else if place == 1924 {
                Some(ContentCategory::Iab19_24)
            } else if place == 1925 {
                Some(ContentCategory::Iab19_25)
            } else if place == 1926 {
                Some(ContentCategory::Iab19_26)
            } else if place == 1927 {
                Some(ContentCategory::Iab19_27)
            } else if place == 1928 {
                Some(ContentCategory::Iab19_28)
            } else if place == 1929 {
                Some(ContentCategory::Iab19_29)
            } else if place == 1930 {
                Some(ContentCategory::Iab19_30)
            } else if place == 1931 {
                Some(ContentCategory::Iab19_31)
            } else if place == 1932 {
                Some(ContentCategory::Iab19_32)
            } else if place == 1933 {
                Some(ContentCategory::Iab19_33)
            } else if place == 1934 {
                Some(ContentCategory::Iab19_34)
            } else if place == 1935 {
                Some(ContentCategory::Iab19_35)
            } else if place == 1936 {
                Some(ContentCategory::Iab19_36)
            } else {
                None
            }
        } else if place < 2100 {
            if place == 2000 {
                Some(ContentCategory::Iab20)
            } else if place == 2001 {
                Some(ContentCategory::Iab20_1)
            } else if place == 2002 {
                Some(ContentCategory::Iab20_2)
            } else if place == 2003 {
                Some(ContentCategory::Iab20_3)
            } else if place == 2004 {
                Some(ContentCategory::Iab20_4)
            } else if place == 2005 {
                Some(ContentCategory::Iab20_5)
            } else if place == 2006 {
                Some(ContentCategory::Iab20_6)
            } else if place == 2007 {
                Some(ContentCategory::Iab20_7)
            } else if place == 2008 {
                Some(ContentCategory::Iab20_8)
            } else if place == 2009 {
                Some(ContentCategory::Iab20_9)
            } else if place == 2010 {
                Some(ContentCategory::Iab20_10)
            } else if place == 2011 {
                Some(ContentCategory::Iab20_11)
            } else if place == 2012 {
                Some(ContentCategory::Iab20_12)
            } else if place == 2013 {
                Some(ContentCategory::Iab20_13)
            } else if place == 2014 {
                Some(ContentCategory::Iab20_14)
            } else if place == 2015 {
                Some(ContentCategory::Iab20_15)
            } else if place == 2016 {
                Some(ContentCategory::Iab20_16)
            } else if place == 2017 {
                Some(ContentCategory::Iab20_17)
            } else if place == 2018 {
                Some(ContentCategory::Iab20_18)
            } else if place == 2019 {
                Some(ContentCategory::Iab20_19)
            } else if place == 2020 {
                Some(ContentCategory::Iab20_20)
            } else if place == 2021 {
                Some(ContentCategory::Iab20_21)
            } else if place == 2022 {
                Some(ContentCategory::Iab20_22)
            } else if place == 2023 {
                Some(ContentCategory::Iab20_23)
            } else if place == 2024 {
                Some(ContentCategory::Iab20_24)
            } else if place == 2025 {
                Some(ContentCategory::Iab20_25)
            } else if place == 2026 {
                Some(ContentCategory::Iab20_26)
            } else if place == 2027 {
                Some(ContentCategory::Iab20_27)
            } else {
                None
            }
        } else if place < 2200 {
            if place == 2100 {
                Some(ContentCategory::Iab21)
            } else if place == 2101 {
                Some(ContentCategory::Iab21_1)
            } else if place == 2102 {
                Some(ContentCategory::Iab21_2)
            } else if place == 2103 {
                Some(ContentCategory::Iab21_3)
            } else {
                None
            }
        } else if place < 2300 {
            if place == 2200 {
                Some(ContentCategory::Iab22)
            } else if place == 2201 {
                Some(ContentCategory::Iab22_1)
            } else if place == 2202 {
                Some(ContentCategory::Iab22_2)
            } else if place == 2203 {
                Some(ContentCategory::Iab22_3)
            } else if place == 2204 {
                Some(ContentCategory::Iab22_4)
            } else {
                None
            }
        } else if place < 2400 {
            if place == 2300 {
                Some(ContentCategory::Iab23)
            } else if place == 2301 {
                Some(ContentCategory::Iab23_1)
            } else if place == 2302 {
                Some(ContentCategory::Iab23_2)
            } else if place == 2303 {
                Some(ContentCategory::Iab23_3)
            } else if place == 2304 {
                Some(ContentCategory::Iab23_4)
            } else if place == 2305 {
                Some(ContentCategory::Iab23_5)
            } else if place == 2306 {
                Some(ContentCategory::Iab23_6)
            } else if place == 2307 {
                Some(ContentCategory::Iab23_7)
            } else if place == 2308 {
                Some(ContentCategory::Iab23_8)
            } else if place == 2309 {
                Some(ContentCategory::Iab23_9)
            } else if place == 2310 {
                Some(ContentCategory::Iab23_10)
            } else {
                None
            }
        } else if place < 2500 {
            if place == 2400 {
                Some(ContentCategory::Iab24)
            } else {
                None
            }
        } else if place < 2600 {
            if place == 2500 {
                Some(ContentCategory::Iab25)
            } else if place == 2501 {
                Some(ContentCategory::Iab25_1)
            } else if place == 2502 {
                Some(ContentCategory::Iab25_2)
            } else if place == 2503 {
                Some(ContentCategory::Iab25_3)
            } else if place == 2504 {
                Some(ContentCategory::Iab25_4)
            } else if place == 2505 {
                Some(ContentCategory::Iab25_5)
            } else if place == 2506 {
                Some(ContentCategory::Iab25_6)
            } else if place == 2507 {
                Some(ContentCategory::Iab25_7)
            } else {
                None
            }
        } else if place < 2700 {
            if place == 2600 {
                Some(ContentCategory::Iab26)
            } else if place == 2601 {
                Some(ContentCategory::Iab26_1)
            } else if place == 2602 {
                Some(ContentCategory::Iab26_2)
            } else if place == 2603 {
                Some(ContentCategory::Iab26_3)
            } else if place == 2604 {
                Some(ContentCategory::Iab26_4)
            } else {
                None
            }
        } else {
            None
        }
    }

    /// The text that stands for this entry on the wire.
    pub open spec fn name(self) -> Seq<char> {
        name_of(self.place() / 100, self.place() % 100)
    }

    /// The entry that `text` stands for, or the error for a text that names none.
    pub open spec fn of_name(text: Seq<char>) -> Result<ContentCategory, ErrorView> {
        match numbers_in(text) {
            Some((top, sub)) => match ContentCategory::of_place(100 * top + sub) {
                Some(c) => Ok(c),
                None => Err(ErrorView::unknown(text, "a content category"@)),
            },
            None => Err(ErrorView::unknown(text, "a content category"@)),
        }
    }

    /// Every entry has a place of its own, with numbers less than 100.
    pub proof fn lemma_place(self)
        ensures
            100 <= self.place() < 10000,
            ContentCategory::of_place(self.place()) == Some(self),
    {
    }

    /// An entry is found at the place it has, and nowhere else.
    #[verifier::rlimit(60)]
    pub proof fn lemma_of_place(place: int)
        ensures
            ContentCategory::of_place(place) matches Some(c) ==> c.place() == place,
    {
    }

    /// A text is read as an entry exactly when it is the name of that entry.
    pub proof fn lemma_of_name(text: Seq<char>, c: ContentCategory)
        ensures
            ContentCategory::of_name(text) == Ok::<ContentCategory, ErrorView>(c) <==> text
                == c.name(),
    {
        c.lemma_place();
        let top = c.place() / 100;
        let sub = c.place() % 100;
        lemma_numbers_in_name(top, sub);
        lemma_name_of_numbers(text);
        if let Some((t, s)) = numbers_in(text) {
            ContentCategory::lemma_of_place(100 * t + s);
        }
    }

    /// The place of this entry in the list.
    fn number(&self) -> (place: u16)
        ensures
            place == self.place(),
    {
        match self {
            ContentCategory::Iab1 => 100,
            ContentCategory::Iab1_1 => 101,
            ContentCategory::Iab1_2 => 102,
            ContentCategory::Iab1_3 => 103,
            ContentCategory::Iab1_4 => 104,
            ContentCategory::Iab1_5 => 105,
            ContentCategory::Iab1_6 => 106,
            ContentCategory::Iab1_7 => 107,
            ContentCategory::Iab2 => 200,
            ContentCategory::Iab2_1 => 201,
            ContentCategory::Iab2_2 => 202,
            ContentCategory::Iab2_3 => 203,
            ContentCategory::Iab2_4 => 204,
            ContentCategory::Iab2_5 => 205,
            ContentCategory::Iab2_6 => 206,
            ContentCategory::Iab2_7 => 207,
            ContentCategory::Iab2_8 => 208,
            ContentCategory::Iab2_9 => 209,
            ContentCategory::Iab2_10 => 210,
            ContentCategory::Iab2_11 => 211,
            ContentCategory::Iab2_12 => 212,
            ContentCategory::Iab2_13 => 213,
            ContentCategory::Iab2_14 => 214,
            ContentCategory::Iab2_15 => 215,
            ContentCategory::Iab2_16 => 216,
            ContentCategory::Iab2_17 => 217,
            ContentCategory::Iab2_18 => 218,
            ContentCategory::Iab2_19 => 219,
            ContentCategory::Iab2_20 => 220,
            ContentCategory::Iab2_21 => 221,
            ContentCategory::Iab2_22 => 222,
            ContentCategory::Iab2_23 => 223,
            ContentCategory::Iab3 => 300,
            ContentCategory::Iab3_1 => 301,
            ContentCategory::Iab3_2 => 302,
            ContentCategory::Iab3_3 => 303,
            ContentCategory::Iab3_4 => 304,
            ContentCategory::Iab3_5 => 305,
            ContentCategory::Iab3_6 => 306,
            ContentCategory::Iab3_7 => 307,
            ContentCategory::Iab3_8 => 308,
            ContentCategory::Iab3_9 => 309,
            ContentCategory::Iab3_10 => 310,
            ContentCategory::Iab3_11 => 311,
            ContentCategory::Iab3_12 => 312,
            ContentCategory::Iab4 => 400,
            ContentCategory::Iab4_1 => 401,
            ContentCategory::Iab4_2 => 402,
            ContentCategory::Iab4_3 => 403,
            ContentCategory::Iab4_4 => 404,
            ContentCategory::Iab4_5 => 405,
            ContentCategory::Iab4_6 => 406,
            ContentCategory::Iab4_7 => 407,
            ContentCategory::Iab4_8 => 408,
            ContentCategory::Iab4_9 => 409,
            ContentCategory::Iab4_10 => 410,
            ContentCategory::Iab4_11 => 411,
            ContentCategory::Iab5 => 500,
            ContentCategory::Iab5_1 => 501,
            ContentCategory::Iab5_2 => 502,
            ContentCategory::Iab5_3 => 503,
            ContentCategory::Iab5_4 => 504,
            ContentCategory::Iab5_5 => 505,
            ContentCategory::Iab5_6 => 506,
            ContentCategory::Iab5_7 => 507,
            ContentCategory::Iab5_8 => 508,
            ContentCategory::Iab5_9 => 509,
            ContentCategory::Iab5_10 => 510,
            ContentCategory::Iab5_11 => 511,
            ContentCategory::Iab5_12 => 512,
            ContentCategory::Iab5_13 => 513,
            ContentCategory::Iab5_14 => 514,
            ContentCategory::Iab5_15 => 515,
            ContentCategory::Iab6 => 600,
            ContentCategory::Iab6_1 => 601,
            ContentCategory::Iab6_2 => 602,
            ContentCategory::Iab6_3 => 603,
            ContentCategory::Iab6_4 => 604,
            ContentCategory::Iab6_5 => 605,
            ContentCategory::Iab6_6 => 606,
            ContentCategory::Iab6_7 => 607,
            ContentCategory::Iab6_8 => 608,
            ContentCategory::Iab6_9 => 609,
            ContentCategory::Iab7 => 700,
            ContentCategory::Iab7_1 => 701,
            ContentCategory::Iab7_2 => 702,
            ContentCategory::Iab7_3 => 703,
            ContentCategory::Iab7_4 => 704,
            ContentCategory::Iab7_5 => 705,
            ContentCategory::Iab7_6 => 706,
            ContentCategory::Iab7_7 => 707,
            ContentCategory::Iab7_8 => 708,
            ContentCategory::Iab7_9 => 709,
            ContentCategory::Iab7_10 => 710,
            ContentCategory::Iab7_11 => 711,
            ContentCategory::Iab7_12 => 712,
            ContentCategory::Iab7_13 => 713,
            ContentCategory::Iab7_14 => 714,
            ContentCategory::Iab7_15 => 715,
            ContentCategory::Iab7_16 => 716,
            ContentCategory::Iab7_17 => 717,
            ContentCategory::Iab7_18 => 718,
            ContentCategory::Iab7_19 => 719,
            ContentCategory::Iab7_20 => 720,
            ContentCategory::Iab7_21 => 721,
            ContentCategory::Iab7_22 => 722,
            ContentCategory::Iab7_23 => 723,
            ContentCategory::Iab7_24 => 724,
            ContentCategory::Iab7_25 => 725,
            ContentCategory::Iab7_26 => 726,
            ContentCategory::Iab7_27 => 727,
            ContentCategory::Iab7_28 => 728,
            ContentCategory::Iab7_29 => 729,
            ContentCategory::Iab7_30 => 730,
            ContentCategory::Iab7_31 => 731,
            ContentCategory::Iab7_32 => 732,
            ContentCategory::Iab7_33 => 733,
            ContentCategory::Iab7_34 => 734,
            ContentCategory::Iab7_35 => 735,
            ContentCategory::Iab7_36 => 736,
            ContentCategory::Iab7_37 => 737,
            ContentCategory::Iab7_38 => 738,
            ContentCategory::Iab7_39 => 739,
            ContentCategory::Iab7_40 => 740,
            ContentCategory::Iab7_41 => 741,
            ContentCategory::Iab7_42 => 742,
            ContentCategory::Iab7_43 => 743,
            ContentCategory::Iab7_44 => 744,
            ContentCategory::Iab7_45 => 745,
            ContentCategory::Iab8 => 800,
            ContentCategory::Iab8_1 => 801,
            ContentCategory::Iab8_2 => 802,
            ContentCategory::Iab8_3 => 803,
            ContentCategory::Iab8_4 => 804,
            ContentCategory::Iab8_5 => 805,
            ContentCategory::Iab8_6 => 806,
            ContentCategory::Iab8_7 => 807,
            ContentCategory::Iab8_8 => 808,
            ContentCategory::Iab8_9 => 809,
            ContentCategory::Iab8_10 => 810,
            ContentCategory::Iab8_11 => 811,
            ContentCategory::Iab8_12 => 812,
            ContentCategory::Iab8_13 => 813,
            ContentCategory::Iab8_14 => 814,
            ContentCategory::Iab8_15 => 815,
            ContentCategory::Iab8_16 => 816,
            ContentCategory::Iab8_17 => 817,
            ContentCategory::Iab8_18 => 818,
            ContentCategory::Iab9 => 900,
            ContentCategory::Iab9_1 => 901,
            ContentCategory::Iab9_2 => 902,
            ContentCategory::Iab9_3 => 903,
            ContentCategory::Iab9_4 => 904,
            ContentCategory::Iab9_5 => 905,
            ContentCategory::Iab9_6 => 906,
            ContentCategory::Iab9_7 => 907,
            ContentCategory::Iab9_8 => 908,
            ContentCategory::Iab9_9 => 909,
            ContentCategory::Iab9_10 => 910,
            ContentCategory::Iab9_11 => 911,
            ContentCategory::Iab9_12 => 912,
            ContentCategory::Iab9_13 => 913,
            ContentCategory::Iab9_14 => 914,
            ContentCategory::Iab9_15 => 915,
            ContentCategory::Iab9_16 => 916,
            ContentCategory::Iab9_17 => 917,
            ContentCategory::Iab9_18 => 918,
            ContentCategory::Iab9_19 => 919,
            ContentCategory::Iab9_20 => 920,
            ContentCategory::Iab9_21 => 921,
            ContentCategory::Iab9_22 => 922,
            ContentCategory::Iab9_23 => 923,
            ContentCategory::Iab9_24 => 924,
            ContentCategory::Iab9_25 => 925,
            ContentCategory::Iab9_26 => 926,
            ContentCategory::Iab9_27 => 927,
            ContentCategory::Iab9_28 => 928,
            ContentCategory::Iab9_29 => 929,
            ContentCategory::Iab9_30 => 930,
            ContentCategory::Iab9_31 => 931,
            ContentCategory::Iab10 => 1000,
            ContentCategory::Iab10_1 => 1001,
            ContentCategory::Iab10_2 => 1002,
            ContentCategory::Iab10_3 => 1003,
            ContentCategory::Iab10_4 => 1004,
            ContentCategory::Iab10_5 => 1005,
            ContentCategory::Iab10_6 => 1006,
            ContentCategory::Iab10_7 => 1007,
            ContentCategory::Iab10_8 => 1008,
            ContentCategory::Iab10_9 => 1009,
            ContentCategory::Iab11 => 1100,
            ContentCategory::Iab11_1 => 1101,
            ContentCategory::Iab11_2 => 1102,
            ContentCategory::Iab11_3 => 1103,
            ContentCategory::Iab11_4 => 1104,
            ContentCategory::Iab11_5 => 1105,
            ContentCategory::Iab12 => 1200,
            ContentCategory::Iab12_1 => 1201,
            ContentCategory::Iab12_2 => 1202,
            ContentCategory::Iab12_3 => 1203,
            ContentCategory::Iab13 => 1300,
            ContentCategory::Iab13_1 => 1301,
            ContentCategory::Iab13_2 => 1302,
            ContentCategory::Iab13_3 => 1303,
            ContentCategory::Iab13_4 => 1304,
            ContentCategory::Iab13_5 => 1305,
            ContentCategory::Iab13_6 => 1306,
            ContentCategory::Iab13_7 => 1307,
            ContentCategory::Iab13_8 => 1308,
            ContentCategory::Iab13_9 => 1309,
            ContentCategory::Iab13_10 => 1310,
            ContentCategory::Iab13_11 => 1311,
            ContentCategory::Iab13_12 => 1312,
            ContentCategory::Iab14 => 1400,
            ContentCategory::Iab14_1 => 1401,
            ContentCategory::Iab14_2 => 1402,
            ContentCategory::Iab14_3 => 1403,
            ContentCategory::Iab14_4 => 1404,
            ContentCategory::Iab14_5 => 1405,
            ContentCategory::Iab14_6 => 1406,
            ContentCategory::Iab14_7 => 1407,
            ContentCategory::Iab14_8 => 1408,
            ContentCategory::Iab15 => 1500,
            ContentCategory::Iab15_1 => 1501,
            ContentCategory::Iab15_2 => 1502,
            ContentCategory::Iab15_3 => 1503,
            ContentCategory::Iab15_4 => 1504,
            ContentCategory::Iab15_5 => 1505,
            ContentCategory::Iab15_6 => 1506,
            ContentCategory::Iab15_7 => 1507,
            ContentCategory::Iab15_8 => 1508,
            ContentCategory::Iab15_9 => 1509,
            ContentCategory::Iab15_10 => 1510,
            ContentCategory::Iab16 => 1600,
            ContentCategory::Iab16_1 => 1601,
            ContentCategory::Iab16_2 => 1602,
            ContentCategory::Iab16_3 => 1603,
            ContentCategory::Iab16_4 => 1604,
            ContentCategory::Iab16_5 => 1605,
            ContentCategory::Iab16_6 => 1606,
            ContentCategory::Iab16_7 => 1607,
            ContentCategory::Iab17 => 1700,
            ContentCategory::Iab17_1 => 1701,
            ContentCategory::Iab17_2 => 1702,
            ContentCategory::Iab17_3 => 1703,
            ContentCategory::Iab17_4 => 1704,
            ContentCategory::Iab17_5 => 1705,
            ContentCategory::Iab17_6 => 1706,
            ContentCategory::Iab17_7 => 1707,
            ContentCategory::Iab17_8 => 1708,
            ContentCategory::Iab17_9 => 1709,
            ContentCategory::Iab17_10 => 1710,
            ContentCategory::Iab17_11 => 1711,
            ContentCategory::Iab17_12 => 1712,
            ContentCategory::Iab17_13 => 1713,
            ContentCategory::Iab17_14 => 1714,
            ContentCategory::Iab17_15 => 1715,
            ContentCategory::Iab17_16 => 1716,
            ContentCategory::Iab17_17 => 1717,
            ContentCategory::Iab17_18 => 1718,
            ContentCategory::Iab17_19 => 1719,
            ContentCategory::Iab17_20 => 1720,
            ContentCategory::Iab17_21 => 1721,
            ContentCategory::Iab17_22 => 1722,
            ContentCategory::Iab17_23 => 1723,
            ContentCategory::Iab17_24 => 1724,
            ContentCategory::Iab17_25 => 1725,
            ContentCategory::Iab17_26 => 1726,
            ContentCategory::Iab17_27 => 1727,
            ContentCategory::Iab17_28 => 1728,
            ContentCategory::Iab17_29 => 1729,
            ContentCategory::Iab17_30 => 1730,
            ContentCategory::Iab17_31 => 1731,
            ContentCategory::Iab17_32 => 1732,
            ContentCategory::Iab17_33 => 1733,
            ContentCategory::Iab17_34 => 1734,
            ContentCategory::Iab17_35 => 1735,
            ContentCategory::Iab17_36 => 1736,
            ContentCategory::Iab17_37 => 1737,
            ContentCategory::Iab17_38 => 1738,
            ContentCategory::Iab17_39 => 1739,
            ContentCategory::Iab17_40 => 1740,
            ContentCategory::Iab17_41 => 1741,
            ContentCategory::Iab17_42 => 1742,
            ContentCategory::Iab17_43 => 1743,
            ContentCategory::Iab17_44 => 1744,
            ContentCategory::Iab18 => 1800,
            ContentCategory::Iab18_1 => 1801,
            ContentCategory::Iab18_2 => 1802,
            ContentCategory::Iab18_3 => 1803,
            ContentCategory::Iab18_4 => 1804,
            ContentCategory::Iab18_5 => 1805,
            ContentCategory::Iab18_6 => 1806,
            ContentCategory::Iab19 => 1900,
            ContentCategory::Iab19_1 => 1901,
            ContentCategory::Iab19_2 => 1902,
            ContentCategory::Iab19_3 => 1903,
            ContentCategory::Iab19_4 => 1904,
            ContentCategory::Iab19_5 => 1905,
            ContentCategory::Iab19_6 => 1906,
            ContentCategory::Iab19_7 => 1907,
            ContentCategory::Iab19_8 => 1908,
            ContentCategory::Iab19_9 => 1909,
            ContentCategory::Iab19_10 => 1910,
            ContentCategory::Iab19_11 => 1911,
            ContentCategory::Iab19_12 => 1912,
            ContentCategory::Iab19_13 => 1913,
            ContentCategory::Iab19_14 => 1914,
            ContentCategory::Iab19_15 => 1915,
            ContentCategory::Iab19_16 => 1916,
            ContentCategory::Iab19_17 => 1917,
            ContentCategory::Iab19_18 => 1918,
            ContentCategory::Iab19_19 => 1919,
            ContentCategory::Iab19_20 => 1920,
            ContentCategory::Iab19_21 => 1921,
            ContentCategory::Iab19_22 => 1922,
            ContentCategory::Iab19_23 => 1923,
            ContentCategory::Iab19_24 => 1924,
            ContentCategory::Iab19_25 => 1925,
            ContentCategory::Iab19_26 => 1926,
            ContentCategory::Iab19_27 => 1927,
            ContentCategory::Iab19_28 => 1928,
            ContentCategory::Iab19_29 => 1929,
            ContentCategory::Iab19_30 => 1930,
            ContentCategory::Iab19_31 => 1931,
            ContentCategory::Iab19_32 => 1932,
            ContentCategory::Iab19_33 => 1933,
            ContentCategory::Iab19_34 => 1934,
            ContentCategory::Iab19_35 => 1935,
            ContentCategory::Iab19_36 => 1936,
            ContentCategory::Iab20 => 2000,
            ContentCategory::Iab20_1 => 2001,
            ContentCategory::Iab20_2 => 2002,
            ContentCategory::Iab20_3 => 2003,
            ContentCategory::Iab20_4 => 2004,
            ContentCategory::Iab20_5 => 2005,
            ContentCategory::Iab20_6 => 2006,
            ContentCategory::Iab20_7 => 2007,
            ContentCategory::Iab20_8 => 2008,
            ContentCategory::Iab20_9 => 2009,
            ContentCategory::Iab20_10 => 2010,
            ContentCategory::Iab20_11 => 2011,
            ContentCategory::Iab20_12 => 2012,
            ContentCategory::Iab20_13 => 2013,
            ContentCategory::Iab20_14 => 2014,
            ContentCategory::Iab20_15 => 2015,
            ContentCategory::Iab20_16 => 2016,
            ContentCategory::Iab20_17 => 2017,
            ContentCategory::Iab20_18 => 2018,
            ContentCategory::Iab20_19 => 2019,
            ContentCategory::Iab20_20 => 2020,
            ContentCategory::Iab20_21 => 2021,
            ContentCategory::Iab20_22 => 2022,
            ContentCategory::Iab20_23 => 2023,
            ContentCategory::Iab20_24 => 2024,
            ContentCategory::Iab20_25 => 2025,
            ContentCategory::Iab20_26 => 2026,
            ContentCategory::Iab20_27 => 2027,
            ContentCategory::Iab21 => 2100,
            ContentCategory::Iab21_1 => 2101,
            ContentCategory::Iab21_2 => 2102,
            ContentCategory::Iab21_3 => 2103,
            ContentCategory::Iab22 => 2200,
            ContentCategory::Iab22_1 => 2201,
            ContentCategory::Iab22_2 => 2202,
            ContentCategory::Iab22_3 => 2203,
            ContentCategory::Iab22_4 => 2204,
            ContentCategory::Iab23 => 2300,
            ContentCategory::Iab23_1 => 2301,
            ContentCategory::Iab23_2 => 2302,
            ContentCategory::Iab23_3 => 2303,
            ContentCategory::Iab23_4 => 2304,
            ContentCategory::Iab23_5 => 2305,
            ContentCategory::Iab23_6 => 2306,
            ContentCategory::Iab23_7 => 2307,
            ContentCategory::Iab23_8 => 2308,
            ContentCategory::Iab23_9 => 2309,
            ContentCategory::Iab23_10 => 2310,
            ContentCategory::Iab24 => 2400,
            ContentCategory::Iab25 => 2500,
            ContentCategory::Iab25_1 => 2501,
            ContentCategory::Iab25_2 => 2502,
            ContentCategory::Iab25_3 => 2503,
            ContentCategory::Iab25_4 => 2504,
            ContentCategory::Iab25_5 => 2505,
            ContentCategory::Iab25_6 => 2506,
            ContentCategory::Iab25_7 => 2507,
            ContentCategory::Iab26 => 2600,
            ContentCategory::Iab26_1 => 2601,
            ContentCategory::Iab26_2 => 2602,
            ContentCategory::Iab26_3 => 2603,
            ContentCategory::Iab26_4 => 2604,
        }
    }

    /// The entry that has this place in the list.
    fn at(place: u16) -> (r: Option<ContentCategory>)
        ensures
            r == ContentCategory::of_place(place as int),
    {
        match place {
            100 => Some(ContentCategory::Iab1),
            101 => Some(ContentCategory::Iab1_1),
            102 => Some(ContentCategory::Iab1_2),
            103 => Some(ContentCategory::Iab1_3),
            104 => Some(ContentCategory::Iab1_4),
            105 => Some(ContentCategory::Iab1_5),
            106 => Some(ContentCategory::Iab1_6),
            107 => Some(ContentCategory::Iab1_7),
            200 => Some(ContentCategory::Iab2),
            201 => Some(ContentCategory::Iab2_1),
            202 => Some(ContentCategory::Iab2_2),
            203 => Some(ContentCategory::Iab2_3),
            204 => Some(ContentCategory::Iab2_4),
            205 => Some(ContentCategory::Iab2_5),
            206 => Some(ContentCategory::Iab2_6),
            207 => Some(ContentCategory::Iab2_7),
            208 => Some(ContentCategory::Iab2_8),
            209 => Some(ContentCategory::Iab2_9),
            210 => Some(ContentCategory::Iab2_10),
            211 => Some(ContentCategory::Iab2_11),
            212 => Some(ContentCategory::Iab2_12),
            213 => Some(ContentCategory::Iab2_13),
            214 => Some(ContentCategory::Iab2_14),
            215 => Some(ContentCategory::Iab2_15),
            216 => Some(ContentCategory::Iab2_16),
            217 => Some(ContentCategory::Iab2_17),
            218 => Some(ContentCategory::Iab2_18),
            219 => Some(ContentCategory::Iab2_19),
            220 => Some(ContentCategory::Iab2_20),
            221 => Some(ContentCategory::Iab2_21),
            222 => Some(ContentCategory::Iab2_22),
            223 => Some(ContentCategory::Iab2_23),
            300 => Some(ContentCategory::Iab3),
            301 => Some(ContentCategory::Iab3_1),
            302 => Some(ContentCategory::Iab3_2),
            303 => Some(ContentCategory::Iab3_3),
            304 => Some(ContentCategory::Iab3_4),
            305 => Some(ContentCategory::Iab3_5),
            306 => Some(ContentCategory::Iab3_6),
            307 => Some(ContentCategory::Iab3_7),
            308 => Some(ContentCategory::Iab3_8),
            309 => Some(ContentCategory::Iab3_9),
            310 => Some(ContentCategory::Iab3_10),
            311 => Some(ContentCategory::Iab3_11),
            312 => Some(ContentCategory::Iab3_12),
            400 => Some(ContentCategory::Iab4),
            401 => Some(ContentCategory::Iab4_1),
            402 => Some(ContentCategory::Iab4_2),
            403 => Some(ContentCategory::Iab4_3),
            404 => Some(ContentCategory::Iab4_4),
            405 => Some(ContentCategory::Iab4_5),
            406 => Some(ContentCategory::Iab4_6),
            407 => Some(ContentCategory::Iab4_7),
            408 => Some(ContentCategory::Iab4_8),
            409 => Some(ContentCategory::Iab4_9),
            410 => Some(ContentCategory::Iab4_10),
            411 => Some(ContentCategory::Iab4_11),
            500 => Some(ContentCategory::Iab5),
            501 => Some(ContentCategory::Iab5_1),
            502 => Some(ContentCategory::Iab5_2),
            503 => Some(ContentCategory::Iab5_3),
            504 => Some(ContentCategory::Iab5_4),
            505 => Some(ContentCategory::Iab5_5),
            506 => Some(ContentCategory::Iab5_6),
            507 => Some(ContentCategory::Iab5_7),
            508 => Some(ContentCategory::Iab5_8),
            509 => Some(ContentCategory::Iab5_9),
            510 => Some(ContentCategory::Iab5_10),
            511 => Some(ContentCategory::Iab5_11),
            512 => Some(ContentCategory::Iab5_12),
            513 => Some(ContentCategory::Iab5_13),
            514 => Some(ContentCategory::Iab5_14),
            515 => Some(ContentCategory::Iab5_15),
            600 => Some(ContentCategory::Iab6),
            601 => Some(ContentCategory::Iab6_1),
            602 => Some(ContentCategory::Iab6_2),
            603 => Some(ContentCategory::Iab6_3),
            604 => Some(ContentCategory::Iab6_4),
            605 => Some(ContentCategory::Iab6_5),
            606 => Some(ContentCategory::Iab6_6),
            607 => Some(ContentCategory::Iab6_7),
            608 => Some(ContentCategory::Iab6_8),
            609 => Some(ContentCategory::Iab6_9),
            700 => Some(ContentCategory::Iab7),
            701 => Some(ContentCategory::Iab7_1),
            702 => Some(ContentCategory::Iab7_2),
            703 => Some(ContentCategory::Iab7_3),
            704 => Some(ContentCategory::Iab7_4),
            705 => Some(ContentCategory::Iab7_5),
            706 => Some(ContentCategory::Iab7_6),
            707 => Some(ContentCategory::Iab7_7),
            708 => Some(ContentCategory::Iab7_8),
            709 => Some(ContentCategory::Iab7_9),
            710 => Some(ContentCategory::Iab7_10),
            711 => Some(ContentCategory::Iab7_11),
            712 => Some(ContentCategory::Iab7_12),
            713 => Some(ContentCategory::Iab7_13),
            714 => Some(ContentCategory::Iab7_14),
            715 => Some(ContentCategory::Iab7_15),
            716 => Some(ContentCategory::Iab7_16),
            717 => Some(ContentCategory::Iab7_17),
            718 => Some(ContentCategory::Iab7_18),
            719 => Some(ContentCategory::Iab7_19),
            720 => Some(ContentCategory::Iab7_20),
            721 => Some(ContentCategory::Iab7_21),
            722 => Some(ContentCategory::Iab7_22),
            723 => Some(ContentCategory::Iab7_23),
            724 => Some(ContentCategory::Iab7_24),
            725 => Some(ContentCategory::Iab7_25),
            726 => Some(ContentCategory::Iab7_26),
            727 => Some(ContentCategory::Iab7_27),
            728 => Some(ContentCategory::Iab7_28),
            729 => Some(ContentCategory::Iab7_29),
            730 => Some(ContentCategory::Iab7_30),
            731 => Some(ContentCategory::Iab7_31),
            732 => Some(ContentCategory::Iab7_32),
            733 => Some(ContentCategory::Iab7_33),
            734 => Some(ContentCategory::Iab7_34),
            735 => Some(ContentCategory::Iab7_35),
            736 => Some(ContentCategory::Iab7_36),
            737 => Some(ContentCategory::Iab7_37),
            738 => Some(ContentCategory::Iab7_38),
            739 => Some(ContentCategory::Iab7_39),
            740 => Some(ContentCategory::Iab7_40),
            741 => Some(ContentCategory::Iab7_41),
            742 => Some(ContentCategory::Iab7_42),
            743 => Some(ContentCategory::Iab7_43),
            744 => Some(ContentCategory::Iab7_44),
            745 => Some(ContentCategory::Iab7_45),
            800 => Some(ContentCategory::Iab8),
            801 => Some(ContentCategory::Iab8_1),
            802 => Some(ContentCategory::Iab8_2),
            803 => Some(ContentCategory::Iab8_3),
            804 => Some(ContentCategory::Iab8_4),
            805 => Some(ContentCategory::Iab8_5),
            806 => Some(ContentCategory::Iab8_6),
            807 => Some(ContentCategory::Iab8_7),
            808 => Some(ContentCategory::Iab8_8),
            809 => Some(ContentCategory::Iab8_9),
            810 => Some(ContentCategory::Iab8_10),
            811 => Some(ContentCategory::Iab8_11),
            812 => Some(ContentCategory::Iab8_12),
            813 => Some(ContentCategory::Iab8_13),
            814 => Some(ContentCategory::Iab8_14),
            815 => Some(ContentCategory::Iab8_15),
            816 => Some(ContentCategory::Iab8_16),
            817 => Some(ContentCategory::Iab8_17),
            818 => Some(ContentCategory::Iab8_18),
            900 => Some(ContentCategory::Iab9),
            901 => Some(ContentCategory::Iab9_1),
            902 => Some(ContentCategory::Iab9_2),
            903 => Some(ContentCategory::Iab9_3),
            904 => Some(ContentCategory::Iab9_4),
            905 => Some(ContentCategory::Iab9_5),
            906 => Some(ContentCategory::Iab9_6),
            907 => Some(ContentCategory::Iab9_7),
            908 => Some(ContentCategory::Iab9_8),
            909 => Some(ContentCategory::Iab9_9),
            910 => Some(ContentCategory::Iab9_10),
            911 => Some(ContentCategory::Iab9_11),
            912 => Some(ContentCategory::Iab9_12),
            913 => Some(ContentCategory::Iab9_13),
            914 => Some(ContentCategory::Iab9_14),
            915 => Some(ContentCategory::Iab9_15),
            916 => Some(ContentCategory::Iab9_16),
            917 => Some(ContentCategory::Iab9_17),
            918 => Some(ContentCategory::Iab9_18),
            919 => Some(ContentCategory::Iab9_19),
            920 => Some(ContentCategory::Iab9_20),
            921 => Some(ContentCategory::Iab9_21),
            922 => Some(ContentCategory::Iab9_22),
            923 => Some(ContentCategory::Iab9_23),
            924 => Some(ContentCategory::Iab9_24),
            925 => Some(ContentCategory::Iab9_25),
            926 => Some(ContentCategory::Iab9_26),
            927 => Some(ContentCategory::Iab9_27),
            928 => Some(ContentCategory::Iab9_28),
            929 => Some(ContentCategory::Iab9_29),
            930 => Some(ContentCategory::Iab9_30),
            931 => Some(ContentCategory::Iab9_31),
            1000 => Some(ContentCategory::Iab10),
            1001 => Some(ContentCategory::Iab10_1),
            1002 => Some(ContentCategory::Iab10_2),
            1003 => Some(ContentCategory::Iab10_3),
            1004 => Some(ContentCategory::Iab10_4),
            1005 => Some(ContentCategory::Iab10_5),
            1006 => Some(ContentCategory::Iab10_6),
            1007 => Some(ContentCategory::Iab10_7),
            1008 => Some(ContentCategory::Iab10_8),
            1009 => Some(ContentCategory::Iab10_9),
            1100 => Some(ContentCategory::Iab11),
            1101 => Some(ContentCategory::Iab11_1),
            1102 => Some(ContentCategory::Iab11_2),
            1103 => Some(ContentCategory::Iab11_3),
            1104 => Some(ContentCategory::Iab11_4),
            1105 => Some(ContentCategory::Iab11_5),
            1200 => Some(ContentCategory::Iab12),
            1201 => Some(ContentCategory::Iab12_1),
            1202 => Some(ContentCategory::Iab12_2),
            1203 => Some(ContentCategory::Iab12_3),
            1300 => Some(ContentCategory::Iab13),
            1301 => Some(ContentCategory::Iab13_1),
            1302 => Some(ContentCategory::Iab13_2),
            1303 => Some(ContentCategory::Iab13_3),
            1304 => Some(ContentCategory::Iab13_4),
            1305 => Some(ContentCategory::Iab13_5),
            1306 => Some(ContentCategory::Iab13_6),
            1307 => Some(ContentCategory::Iab13_7),
            1308 => Some(ContentCategory::Iab13_8),
            1309 => Some(ContentCategory::Iab13_9),
            1310 => Some(ContentCategory::Iab13_10),
            1311 => Some(ContentCategory::Iab13_11),
            1312 => Some(ContentCategory::Iab13_12),
            1400 => Some(ContentCategory::Iab14),
            1401 => Some(ContentCategory::Iab14_1),
            1402 => Some(ContentCategory::Iab14_2),
            1403 => Some(ContentCategory::Iab14_3),
            1404 => Some(ContentCategory::Iab14_4),
            1405 => Some(ContentCategory::Iab14_5),
            1406 => Some(ContentCategory::Iab14_6),
            1407 => Some(ContentCategory::Iab14_7),
            1408 => Some(ContentCategory::Iab14_8),
            1500 => Some(ContentCategory::Iab15),
            1501 => Some(ContentCategory::Iab15_1),
            1502 => Some(ContentCategory::Iab15_2),
            1503 => Some(ContentCategory::Iab15_3),
            1504 => Some(ContentCategory::Iab15_4),
            1505 => Some(ContentCategory::Iab15_5),
            1506 => Some(ContentCategory::Iab15_6),
            1507 => Some(ContentCategory::Iab15_7),
            1508 => Some(ContentCategory::Iab15_8),
            1509 => Some(ContentCategory::Iab15_9),
            1510 => Some(ContentCategory::Iab15_10),
            1600 => Some(ContentCategory::Iab16),
            1601 => Some(ContentCategory::Iab16_1),
            1602 => Some(ContentCategory::Iab16_2),
            1603 => Some(ContentCategory::Iab16_3),
            1604 => Some(ContentCategory::Iab16_4),
            1605 => Some(ContentCategory::Iab16_5),
            1606 => Some(ContentCategory::Iab16_6),
            1607 => Some(ContentCategory::Iab16_7),
            1700 => Some(ContentCategory::Iab17),
            1701 => Some(ContentCategory::Iab17_1),
            1702 => Some(ContentCategory::Iab17_2),
            1703 => Some(ContentCategory::Iab17_3),
            1704 => Some(ContentCategory::Iab17_4),
            1705 => Some(ContentCategory::Iab17_5),
            1706 => Some(ContentCategory::Iab17_6),
            1707 => Some(ContentCategory::Iab17_7),
            1708 => Some(ContentCategory::Iab17_8),
            1709 => Some(ContentCategory::Iab17_9),
            1710 => Some(ContentCategory::Iab17_10),
            1711 => Some(ContentCategory::Iab17_11),
            1712 => Some(ContentCategory::Iab17_12),
            1713 => Some(ContentCategory::Iab17_13),
            1714 => Some(ContentCategory::Iab17_14),
            1715 => Some(ContentCategory::Iab17_15),
            1716 => Some(ContentCategory::Iab17_16),
            1717 => Some(ContentCategory::Iab17_17),
            1718 => Some(ContentCategory::Iab17_18),
            1719 => Some(ContentCategory::Iab17_19),
            1720 => Some(ContentCategory::Iab17_20),
            1721 => Some(ContentCategory::Iab17_21),
            1722 => Some(ContentCategory::Iab17_22),
            1723 => Some(ContentCategory::Iab17_23),
            1724 => Some(ContentCategory::Iab17_24),
            1725 => Some(ContentCategory::Iab17_25),
            1726 => Some(ContentCategory::Iab17_26),
            1727 => Some(ContentCategory::Iab17_27),
            1728 => Some(ContentCategory::Iab17_28),
            1729 => Some(ContentCategory::Iab17_29),
            1730 => Some(ContentCategory::Iab17_30),
            1731 => Some(ContentCategory::Iab17_31),
            1732 => Some(ContentCategory::Iab17_32),
            1733 => Some(ContentCategory::Iab17_33),
            1734 => Some(ContentCategory::Iab17_34),
            1735 => Some(ContentCategory::Iab17_35),
            1736 => Some(ContentCategory::Iab17_36),
            1737 => Some(ContentCategory::Iab17_37),
            1738 => Some(ContentCategory::Iab17_38),
            1739 => Some(ContentCategory::Iab17_39),
            1740 => Some(ContentCategory::Iab17_40),
            1741 => Some(ContentCategory::Iab17_41),
            1742 => Some(ContentCategory::Iab17_42),
            1743 => Some(ContentCategory::Iab17_43),
            1744 => Some(ContentCategory::Iab17_44),
            1800 => Some(ContentCategory::Iab18),
            1801 => Some(ContentCategory::Iab18_1),
            1802 => Some(ContentCategory::Iab18_2),
            1803 => Some(ContentCategory::Iab18_3),
            1804 => Some(ContentCategory::Iab18_4),
            1805 => Some(ContentCategory::Iab18_5),
            1806 => Some(ContentCategory::Iab18_6),
            1900 => Some(ContentCategory::Iab19),
            1901 => Some(ContentCategory::Iab19_1),
            1902 => Some(ContentCategory::Iab19_2),
            1903 => Some(ContentCategory::Iab19_3),
            1904 => Some(ContentCategory::Iab19_4),
            1905 => Some(ContentCategory::Iab19_5),
            1906 => Some(ContentCategory::Iab19_6),
            1907 => Some(ContentCategory::Iab19_7),
            1908 => Some(ContentCategory::Iab19_8),
            1909 => Some(ContentCategory::Iab19_9),
            1910 => Some(ContentCategory::Iab19_10),
            1911 => Some(ContentCategory::Iab19_11),
            1912 => Some(ContentCategory::Iab19_12),
            1913 => Some(ContentCategory::Iab19_13),
            1914 => Some(ContentCategory::Iab19_14),
            1915 => Some(ContentCategory::Iab19_15),
            1916 => Some(ContentCategory::Iab19_16),
            1917 => Some(ContentCategory::Iab19_17),
            1918 => Some(ContentCategory::Iab19_18),
            1919 => Some(ContentCategory::Iab19_19),
            1920 => Some(ContentCategory::Iab19_20),
            1921 => Some(ContentCategory::Iab19_21),
            1922 => Some(ContentCategory::Iab19_22),
            1923 => Some(ContentCategory::Iab19_23),
            1924 => Some(ContentCategory::Iab19_24),
            1925 => Some(ContentCategory::Iab19_25),
            1926 => Some(ContentCategory::Iab19_26),
            1927 => Some(ContentCategory::Iab19_27),
            1928 => Some(ContentCategory::Iab19_28),
            1929 => Some(ContentCategory::Iab19_29),
            1930 => Some(ContentCategory::Iab19_30),
            1931 => Some(ContentCategory::Iab19_31),
            1932 => Some(ContentCategory::Iab19_32),
            1933 => Some(ContentCategory::Iab19_33),
            1934 => Some(ContentCategory::Iab19_34),
            1935 => Some(ContentCategory::Iab19_35),
            1936 => Some(ContentCategory::Iab19_36),
            2000 => Some(ContentCategory::Iab20),
            2001 => Some(ContentCategory::Iab20_1),
            2002 => Some(ContentCategory::Iab20_2),
            2003 => Some(ContentCategory::Iab20_3),
            2004 => Some(ContentCategory::Iab20_4),
            2005 => Some(ContentCategory::Iab20_5),
            2006 => Some(ContentCategory::Iab20_6),
            2007 => Some(ContentCategory::Iab20_7),
            2008 => Some(ContentCategory::Iab20_8),
            2009 => Some(ContentCategory::Iab20_9),
            2010 => Some(ContentCategory::Iab20_10),
            2011 => Some(ContentCategory::Iab20_11),
            2012 => Some(ContentCategory::Iab20_12),
            2013 => Some(ContentCategory::Iab20_13),
            2014 => Some(ContentCategory::Iab20_14),
            2015 => Some(ContentCategory::Iab20_15),
            2016 => Some(ContentCategory::Iab20_16),
            2017 => Some(ContentCategory::Iab20_17),
            2018 => Some(ContentCategory::Iab20_18),
            2019 => Some(ContentCategory::Iab20_19),
            2020 => Some(ContentCategory::Iab20_20),
            2021 => Some(ContentCategory::Iab20_21),
            2022 => Some(ContentCategory::Iab20_22),
            2023 => Some(ContentCategory::Iab20_23),
            2024 => Some(ContentCategory::Iab20_24),
            2025 => Some(ContentCategory::Iab20_25),
            2026 => Some(ContentCategory::Iab20_26),
            2027 => Some(ContentCategory::Iab20_27),
            2100 => Some(ContentCategory::Iab21),
            2101 => Some(ContentCategory::Iab21_1),
            2102 => Some(ContentCategory::Iab21_2),
            2103 => Some(ContentCategory::Iab21_3),
            2200 => Some(ContentCategory::Iab22),
            2201 => Some(ContentCategory::Iab22_1),
            2202 => Some(ContentCategory::Iab22_2),
            2203 => Some(ContentCategory::Iab22_3),
            2204 => Some(ContentCategory::Iab22_4),
            2300 => Some(ContentCategory::Iab23),
            2301 => Some(ContentCategory::Iab23_1),
            2302 => Some(ContentCategory::Iab23_2),
            2303 => Some(ContentCategory::Iab23_3),
            2304 => Some(ContentCategory::Iab23_4),
            2305 => Some(ContentCategory::Iab23_5),
            2306 => Some(ContentCategory::Iab23_6),
            2307 => Some(ContentCategory::Iab23_7),
            2308 => Some(ContentCategory::Iab23_8),
            2309 => Some(ContentCategory::Iab23_9),
            2310 => Some(ContentCategory::Iab23_10),
            2400 => Some(ContentCategory::Iab24),
            2500 => Some(ContentCategory::Iab25),
            2501 => Some(ContentCategory::Iab25_1),
            2502 => Some(ContentCategory::Iab25_2),
            2503 => Some(ContentCategory::Iab25_3),
            2504 => Some(ContentCategory::Iab25_4),
            2505 => Some(ContentCategory::Iab25_5),
            2506 => Some(ContentCategory::Iab25_6),
            2507 => Some(ContentCategory::Iab25_7),
            2600 => Some(ContentCategory::Iab26),
            2601 => Some(ContentCategory::Iab26_1),
            2602 => Some(ContentCategory::Iab26_2),
            2603 => Some(ContentCategory::Iab26_3),
            2604 => Some(ContentCategory::Iab26_4),
            _ => None,
        }
    }

    /// The text that stands for this entry on the wire. It is read back as the same
    /// entry.
    pub fn serialize(&self) -> (text: String)
        ensures
            text@ == self.name(),
            ContentCategory::of_name(text@) == Ok::<ContentCategory, ErrorView>(*self),
    {
        proof {
            self.lemma_place();
            ContentCategory::lemma_of_name(self.name(), *self);
        }
        let place = self.number();
        write_name(place / 100, place % 100)
    }

    /// The entry that `text` stands for, letter for letter, and for a text that is the
    /// name of no entry an error that holds it. An entry that is returned has the name
    /// `text`.
    pub fn deserialize(text: &str) -> (r: Result<ContentCategory, Error>)
        ensures
            match (r, ContentCategory::of_name(text@)) {
                (Ok(x), Ok(m)) => x == m,
                (Err(e), Err(f)) => e@ == f,
                _ => false,
            },
            r matches Ok(x) ==> x.name() == text@,
    {
        match read_numbers(text) {
            Some((top, sub)) => match ContentCategory::at(100 * top + sub) {
                Some(c) => {
                    proof {
                        ContentCategory::lemma_of_name(text@, c);
                    }
                    Ok(c)
                },
                None => Err(Error::unknown(text, "a content category")),
            },
            None => Err(Error::unknown(text, "a content category")),
        }
    }
}

/// The text of a number of one or two digits.
fn write_number(text: &mut String, n: u16)
    requires
        n <= 99,
    ensures
        final(text)@ == old(text)@ + (if n < 10 {
            seq![digit(n as int)]
        } else {
            seq![digit(n as int / 10), digit(n as int % 10)]
        }),
{
    if n >= 10 {
        text.append(digit_text((n / 10) as u8));
        text.append(digit_text((n % 10) as u8));
        assert(text@ =~= old(text)@ + seq![digit(n as int / 10), digit(n as int % 10)]);
    } else {
        text.append(digit_text(n as u8));
    }
}

/// The name of subcategory `sub` of category `top`, or of the category itself where `sub`
/// is 0.
fn write_name(top: u16, sub: u16) -> (text: String)
    requires
        1 <= top <= 99,
        sub <= 99,
    ensures
        text@ == name_of(top as int, sub as int),
{
    proof {
        reveal_strlit("IAB");
        reveal_strlit("-");
    }
    let mut text = String::from_str("IAB");
    assert(text@ =~= seq!['I', 'A', 'B']);
    write_number(&mut text, top);
    if sub > 0 {
        let ghost head = text@;
        text.append("-");
        assert(text@ =~= head + seq!['-']);
        write_number(&mut text, sub);
    }
    assert(text@ =~= name_of(top as int, sub as int));
    text
}

/// Reads the number of one or two digits that is written in `text` from `at` on.
fn read_number(text: &str, len: usize, at: usize) -> (r: Option<(u16, usize)>)
    requires
        len == text@.len(),
        at <= len,
    ensures
        match r {
            Some((n, next)) => number_at(text@, at as int) == Some((n as int, next as int)) && 1
                <= n <= 99 && next <= len,
            None => number_at(text@, at as int) is None,
        },
{
    if at >= len {
        return None;
    }
    match read_digit(text.get_char(at)) {
        None => None,
        Some(first) => {
            if first == 0 {
                None
            } else if at + 1 < len {
                match read_digit(text.get_char(at + 1)) {
                    Some(second) => Some((10 * first + second, at + 2)),
                    None => Some((first, at + 1)),
                }
            } else {
                Some((first, at + 1))
            }
        },
    }
}

/// Reads the numbers of the category and the subcategory that `text` names.
fn read_numbers(text: &str) -> (r: Option<(u16, u16)>)
    ensures
        match r {
            Some((top, sub)) => numbers_in(text@) == Some((top as int, sub as int)) && 1 <= top
                <= 99 && sub <= 99,
            None => numbers_in(text@) is None,
        },
{
    let len = text.unicode_len();
    if len < 3 {
        return None;
    }
    if text.get_char(0) != 'I' || text.get_char(1) != 'A' || text.get_char(2) != 'B' {
        return None;
    }
    match read_number(text, len, 3) {
        None => None,
        Some((top, next)) => {
            if next == len {
                Some((top, 0))
            } else if text.get_char(next) == '-' {
                match read_number(text, len, next + 1) {
                    Some((sub, end)) => if end == len {
                        Some((top, sub))
                    } else {
                        None
                    },
                    None => None,
                }
            } else {
                None
            }
        },
    }
}

impl Codec for ContentCategory {
    type Model = ContentCategory;

    open spec fn model(&self) -> ContentCategory {
        *self
    }

    open spec fn valid(m: ContentCategory) -> bool {
        true
    }

    open spec fn current(m: ContentCategory) -> bool {
        true
    }

    open spec fn encoded(m: ContentCategory) -> Json {
        Json::Text(m.name())
    }

    open spec fn decoded(json: Json) -> Result<ContentCategory, ErrorView> {
        match json {
            Json::Text(text) => ContentCategory::of_name(text),
            _ => Err(ErrorView::shape(json, "a string"@)),
        }
    }

    fn to_value(&self) -> (value: Value) {
        self.serialize().to_value()
    }

    fn from_value(value: &Value) -> (r: Result<ContentCategory, Error>) {
        match value.as_str() {
            Some(text) => ContentCategory::deserialize(text),
            None => Err(Error::shape(value, "a string")),
        }
    }

    proof fn round_trip(m: ContentCategory) {
        ContentCategory::lemma_of_name(m.name(), m);
    }

    proof fn decoded_valid(json: Json) {
    }
}

} // verus!
