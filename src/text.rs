//! Display texts of the catalog: names, descriptions and tips.
use vstd::prelude::*;
use crate::tile::{CropType, FertilizerType};

verus! {

/// The name shown to the player.
pub open spec fn crop_display_name(c: CropType) -> Seq<char> {
    match c {
        CropType::Wheat => "小麦"@,
        CropType::PremiumWheat => "优质小麦"@,
        CropType::GoldenWheat => "金色小麦"@,
        CropType::Corn => "玉米"@,
        CropType::PremiumCorn => "优质玉米"@,
        CropType::GoldenCorn => "金色玉米"@,
        CropType::Carrot => "胡萝卜"@,
        CropType::PremiumCarrot => "优质胡萝卜"@,
        CropType::GoldenCarrot => "金色胡萝卜"@,
    }
}

/// A one-line description.
pub open spec fn crop_description(c: CropType) -> Seq<char> {
    match c {
        CropType::Wheat => "基础农作物，生长快速，用途广泛"@,
        CropType::PremiumWheat => "优质小麦，产量更高，生长略慢"@,
        CropType::GoldenWheat => "金色小麦，极高价值，生长周期长"@,
        CropType::Corn => "高价值作物，生长较慢但收益丰厚"@,
        CropType::PremiumCorn => "优质玉米，产量更高，生长更久"@,
        CropType::GoldenCorn => "金色玉米，极高价值，生长周期最长"@,
        CropType::Carrot => "营养丰富的根茎类作物，中等生长周期"@,
        CropType::PremiumCarrot => "优质胡萝卜，产量更高，生长略慢"@,
        CropType::GoldenCarrot => "金色胡萝卜，极高价值，生长周期长"@,
    }
}

/// The notable traits, one per line.
pub open spec fn crop_characteristics(c: CropType) -> Seq<char> {
    match c {
        CropType::Wheat => "• 适应性强\n• 收获量稳定\n• 市场需求量大"@,
        CropType::PremiumWheat => "• 更高产量\n• 稳定收益\n• 适合大面积种植"@,
        CropType::GoldenWheat => "• 极高售价\n• 稀有作物\n• 需要耐心等待"@,
        CropType::Corn => "• 营养价值高\n• 单株产量大\n• 储存时间长"@,
        CropType::PremiumCorn => "• 更高产量\n• 高营养\n• 适合搭配肥料"@,
        CropType::GoldenCorn => "• 极高售价\n• 稀有作物\n• 需要耐心等待"@,
        CropType::Carrot => "• 富含维生素\n• 抗寒性好\n• 土壤要求低"@,
        CropType::PremiumCarrot => "• 更高产量\n• 健康营养\n• 适合多地块轮作"@,
        CropType::GoldenCarrot => "• 极高售价\n• 稀有作物\n• 需要耐心等待"@,
    }
}

/// Advice on when and how to plant.
pub open spec fn crop_planting_tips(c: CropType) -> Seq<char> {
    match c {
        CropType::Wheat => "建议: 适合初学者种植，可大面积种植获得稳定收入"@,
        CropType::PremiumWheat => "建议: 适合追求高产的玩家，注意生长周期"@,
        CropType::GoldenWheat => "建议: 适合后期冲刺高收益，需耐心等待成熟"@,
        CropType::Corn => "建议: 高价值作物，建议使用肥料缩短生长时间"@,
        CropType::PremiumCorn => "建议: 适合搭配高级肥料，追求极致产出"@,
        CropType::GoldenCorn => "建议: 适合后期冲刺高收益，需耐心等待成熟"@,
        CropType::Carrot => "建议: 平衡型作物，适合搭配其他作物种植"@,
        CropType::PremiumCarrot => "建议: 适合多样化种植，搭配轮作提升收益"@,
        CropType::GoldenCarrot => "建议: 适合后期冲刺高收益，需耐心等待成熟"@,
    }
}

/// The name shown to the player.
pub open spec fn fertilizer_display_name(f: FertilizerType) -> Seq<char> {
    match f {
        FertilizerType::Unfertilized => "无"@,
        FertilizerType::Basic => "基础肥料"@,
        FertilizerType::Premium => "高级肥料"@,
        FertilizerType::Super => "超级肥料"@,
    }
}

/// How much growth time it saves, as shown to the player.
pub open spec fn fertilizer_speed_bonus_text(f: FertilizerType) -> Seq<char> {
    match f {
        FertilizerType::Unfertilized => ""@,
        FertilizerType::Basic => "(-20%时间)"@,
        FertilizerType::Premium => "(-35%时间)"@,
        FertilizerType::Super => "(-50%时间)"@,
    }
}

/// What it does, as shown to the player.
pub open spec fn fertilizer_effect_description(f: FertilizerType) -> Seq<char> {
    match f {
        FertilizerType::Unfertilized => ""@,
        FertilizerType::Basic => "提供基础营养，轻微加速生长"@,
        FertilizerType::Premium => "富含多种营养元素，显著促进生长"@,
        FertilizerType::Super => "顶级营养配方，极大缩短生长周期"@,
    }
}

impl CropType {
    /// The name shown to the player.
    pub fn display_name(&self) -> (r: &'static str)
        ensures
            r@ == crop_display_name(*self),
    {
        match self {
            CropType::Wheat => "小麦",
            CropType::PremiumWheat => "优质小麦",
            CropType::GoldenWheat => "金色小麦",
            CropType::Corn => "玉米",
            CropType::PremiumCorn => "优质玉米",
            CropType::GoldenCorn => "金色玉米",
            CropType::Carrot => "胡萝卜",
            CropType::PremiumCarrot => "优质胡萝卜",
            CropType::GoldenCarrot => "金色胡萝卜",
        }
    }

    /// A one-line description.
    pub fn description(&self) -> (r: &'static str)
        ensures
            r@ == crop_description(*self),
    {
        match self {
            CropType::Wheat => "基础农作物，生长快速，用途广泛",
            CropType::PremiumWheat => "优质小麦，产量更高，生长略慢",
            CropType::GoldenWheat => "金色小麦，极高价值，生长周期长",
            CropType::Corn => "高价值作物，生长较慢但收益丰厚",
            CropType::PremiumCorn => "优质玉米，产量更高，生长更久",
            CropType::GoldenCorn => "金色玉米，极高价值，生长周期最长",
            CropType::Carrot => "营养丰富的根茎类作物，中等生长周期",
            CropType::PremiumCarrot => "优质胡萝卜，产量更高，生长略慢",
            CropType::GoldenCarrot => "金色胡萝卜，极高价值，生长周期长",
        }
    }

    /// The notable traits, one per line.
    pub fn characteristics(&self) -> (r: &'static str)
        ensures
            r@ == crop_characteristics(*self),
    {
        match self {
            CropType::Wheat => "• 适应性强\n• 收获量稳定\n• 市场需求量大",
            CropType::PremiumWheat => "• 更高产量\n• 稳定收益\n• 适合大面积种植",
            CropType::GoldenWheat => "• 极高售价\n• 稀有作物\n• 需要耐心等待",
            CropType::Corn => "• 营养价值高\n• 单株产量大\n• 储存时间长",
            CropType::PremiumCorn => "• 更高产量\n• 高营养\n• 适合搭配肥料",
            CropType::GoldenCorn => "• 极高售价\n• 稀有作物\n• 需要耐心等待",
            CropType::Carrot => "• 富含维生素\n• 抗寒性好\n• 土壤要求低",
            CropType::PremiumCarrot => "• 更高产量\n• 健康营养\n• 适合多地块轮作",
            CropType::GoldenCarrot => "• 极高售价\n• 稀有作物\n• 需要耐心等待",
        }
    }

    /// Advice on when and how to plant.
    pub fn planting_tips(&self) -> (r: &'static str)
        ensures
            r@ == crop_planting_tips(*self),
    {
        match self {
            CropType::Wheat => "建议: 适合初学者种植，可大面积种植获得稳定收入",
            CropType::PremiumWheat => "建议: 适合追求高产的玩家，注意生长周期",
            CropType::GoldenWheat => "建议: 适合后期冲刺高收益，需耐心等待成熟",
            CropType::Corn => "建议: 高价值作物，建议使用肥料缩短生长时间",
            CropType::PremiumCorn => "建议: 适合搭配高级肥料，追求极致产出",
            CropType::GoldenCorn => "建议: 适合后期冲刺高收益，需耐心等待成熟",
            CropType::Carrot => "建议: 平衡型作物，适合搭配其他作物种植",
            CropType::PremiumCarrot => "建议: 适合多样化种植，搭配轮作提升收益",
            CropType::GoldenCarrot => "建议: 适合后期冲刺高收益，需耐心等待成熟",
        }
    }
}

impl FertilizerType {
    /// The name shown to the player.
    pub fn display_name(&self) -> (r: &'static str)
        ensures
            r@ == fertilizer_display_name(*self),
    {
        match self {
            FertilizerType::Unfertilized => "无",
            FertilizerType::Basic => "基础肥料",
            FertilizerType::Premium => "高级肥料",
            FertilizerType::Super => "超级肥料",
        }
    }

    /// How much growth time it saves, as shown to the player.
    pub fn speed_bonus_text(&self) -> (r: &'static str)
        ensures
            r@ == fertilizer_speed_bonus_text(*self),
    {
        match self {
            FertilizerType::Unfertilized => "",
            FertilizerType::Basic => "(-20%时间)",
            FertilizerType::Premium => "(-35%时间)",
            FertilizerType::Super => "(-50%时间)",
        }
    }

    /// What it does, as shown to the player.
    pub fn effect_description(&self) -> (r: &'static str)
        ensures
            r@ == fertilizer_effect_description(*self),
    {
        match self {
            FertilizerType::Unfertilized => "",
            FertilizerType::Basic => "提供基础营养，轻微加速生长",
            FertilizerType::Premium => "富含多种营养元素，显著促进生长",
            FertilizerType::Super => "顶级营养配方，极大缩短生长周期",
        }
    }
}

} // verus!
